//! The capability contract every binding variant satisfies, and the singular
//! and composite variants.
//!
//! Level state is injected: the host resolves a binding to its physical code
//! with [`BindTarget::keycode`], reads that code's raw level from the
//! platform, and hands the reading to [`BindTarget::down`],
//! [`BindTarget::pressed`] or [`BindTarget::released`]. Edge state goes
//! through a shared [`TransitionTracker`], so bindings that alias one
//! physical code share one transition history.

use vstd::prelude::*;
use crate::keycodes::CODE_NONE;
use crate::keycodes::get_keyboard_keycode;
use crate::keycodes::get_pointer_keycode;
use crate::keycodes::spec_keyboard_keycode;
use crate::keycodes::spec_pointer_keycode;
use crate::keys::Key;
use crate::keys::Modifiers;
use crate::keys::PointerButton;
use crate::keys::key_label;
use crate::keys::pointer_label;
use crate::keys::spec_key_label;
use crate::keys::spec_pointer_label;
use crate::tracker::TransitionTracker;
use crate::tracker::press_fires;
use crate::tracker::press_step;
use crate::tracker::release_fires;
use crate::tracker::release_step;

verus! {

/// The modifier prefix rendered before a composite binding's base label:
/// ctrl or command first, then shift, then alt.
pub open spec fn spec_modifier_prefix(m: Modifiers) -> Seq<char> {
    (if m.ctrl || m.command {
        "^"@
    } else {
        Seq::<char>::empty()
    }) + (if m.shift {
        "_"@
    } else {
        Seq::<char>::empty()
    }) + (if m.alt {
        "*"@
    } else {
        Seq::<char>::empty()
    })
}

/// Renders the modifier prefix of a composite binding's label.
pub fn modifier_prefix(m: Modifiers) -> (r: String)
    ensures
        r@ == spec_modifier_prefix(m),
{
    let mut prefix = String::new();
    if m.ctrl || m.command {
        prefix.append("^");
    }
    if m.shift {
        prefix.append("_");
    }
    if m.alt {
        prefix.append("*");
    }
    proof {
        assert(prefix@ =~= spec_modifier_prefix(m));
    }
    prefix
}

/// A value that can be used as a bind target.
///
/// Every variant is, at any instant, either unset or bound to exactly one
/// physical input code. The static capability flags say which mutations a
/// variant structurally supports; a mutation a variant does not support is
/// rejected by its precondition, so no verified caller can reach it.
pub trait BindTarget: Sized {
    /// Whether this variant accepts a key assignment.
    spec fn spec_is_key() -> bool;

    /// Whether this variant accepts a pointer assignment.
    spec fn spec_is_pointer() -> bool;

    /// Whether this variant can be cleared back to unset.
    spec fn spec_clearable() -> bool;

    /// Whether presses of this variant should be externally reported.
    spec fn spec_reported() -> bool;

    /// Whether this value is currently bound to a physical target.
    spec fn spec_set(&self) -> bool;

    /// The physical input code this value resolves to; [`CODE_NONE`] when
    /// unset.
    spec fn spec_code(&self) -> i32;

    /// The characters of this value's display label.
    spec fn spec_label(&self) -> Seq<char>;

    /// The value a key assignment produces: independent of the prior value.
    spec fn spec_after_key(key: Key, modifiers: Modifiers) -> Self;

    /// The value a pointer assignment produces: independent of the prior
    /// value.
    spec fn spec_after_pointer(button: PointerButton, modifiers: Modifiers) -> Self;

    /// The unset value a clear produces.
    spec fn spec_cleared() -> Self;

    /// Can accept a key bind?
    fn is_key() -> (r: bool)
        ensures
            r == Self::spec_is_key(),
    ;

    /// Can accept a pointer bind?
    fn is_pointer() -> (r: bool)
        ensures
            r == Self::spec_is_pointer(),
    ;

    /// Can be cleared?
    fn clearable() -> (r: bool)
        ensures
            r == Self::spec_clearable(),
    ;

    /// Should presses be externally reported?
    fn reported() -> (r: bool)
        ensures
            r == Self::spec_reported(),
    ;

    /// Builds the value a key assignment produces.
    fn key_value(key: Key, modifiers: Modifiers) -> (r: Self)
        requires
            Self::spec_is_key(),
        ensures
            r == Self::spec_after_key(key, modifiers),
    ;

    /// Builds the value a pointer assignment produces.
    fn pointer_value(button: PointerButton, modifiers: Modifiers) -> (r: Self)
        requires
            Self::spec_is_pointer(),
        ensures
            r == Self::spec_after_pointer(button, modifiers),
    ;

    /// Rebinds to a keyboard input, capturing the modifiers where the
    /// variant holds a composite. The result does not depend on the prior
    /// value.
    fn set_key(&mut self, key: Key, modifiers: Modifiers)
        requires
            Self::spec_is_key(),
        ensures
            *final(self) == Self::spec_after_key(key, modifiers),
    ;

    /// Rebinds to a pointer button, capturing the modifiers where the
    /// variant holds a composite. The result does not depend on the prior
    /// value.
    fn set_pointer(&mut self, button: PointerButton, modifiers: Modifiers)
        requires
            Self::spec_is_pointer(),
        ensures
            *final(self) == Self::spec_after_pointer(button, modifiers),
    ;

    /// Resets to the unset state.
    fn clear(&mut self)
        requires
            Self::spec_clearable(),
        ensures
            *final(self) == Self::spec_cleared(),
            !Self::spec_cleared().spec_set(),
    ;

    /// Renders the short human-readable label of this binding.
    fn format(&self) -> (r: String)
        ensures
            r@ == self.spec_label(),
    ;

    /// Resolves this binding to its physical input code, the identity the
    /// host queries the platform's level state with; [`CODE_NONE`] when
    /// unset.
    fn keycode(&self) -> (code: i32)
        ensures
            code == self.spec_code(),
    ;

    /// Is the bind down? `is_down` is the raw level the host read for this
    /// binding's [`keycode`](BindTarget::keycode); an unset binding reports
    /// up regardless.
    fn down(&self, is_down: bool) -> (r: bool)
        ensures
            r == (self.spec_set() && is_down),
    ;

    /// Was the bind just pressed? Fires exactly once per down-transition of
    /// this binding's code, shared across every binding that aliases it; an
    /// unset binding reports nothing and leaves the tracker unchanged.
    fn pressed(&self, tracker: &mut TransitionTracker, is_down: bool) -> (r: bool)
        ensures
            r == (self.spec_set() && press_fires(old(tracker)@, self.spec_code(), is_down)),
            final(tracker)@ == (if self.spec_set() {
                press_step(old(tracker)@, self.spec_code(), is_down)
            } else {
                old(tracker)@
            }),
    ;

    /// Was the bind just released? Fires exactly once per up-transition of
    /// this binding's code, shared across every binding that aliases it; an
    /// unset binding reports nothing and leaves the tracker unchanged.
    fn released(&self, tracker: &mut TransitionTracker, is_down: bool) -> (r: bool)
        ensures
            r == (self.spec_set() && release_fires(old(tracker)@, self.spec_code(), is_down)),
            final(tracker)@ == (if self.spec_set() {
                release_step(old(tracker)@, self.spec_code(), is_down)
            } else {
                old(tracker)@
            }),
    ;
}

/// Rebinds a pointer-capable binding and erases the transition record of the
/// physical target it is leaving, so whatever is later bound to that target
/// starts from a clean history.
pub fn rebind_pointer<B: BindTarget>(
    binding: &mut B,
    tracker: &mut TransitionTracker,
    button: PointerButton,
    modifiers: Modifiers,
)
    requires
        B::spec_is_pointer(),
    ensures
        *final(binding) == B::spec_after_pointer(button, modifiers),
        final(tracker)@ == old(tracker)@.remove(old(binding).spec_code()),
{
    let code = binding.keycode();
    tracker.forget(code);
    binding.set_pointer(button, modifiers);
}

impl BindTarget for Key {
    open spec fn spec_is_key() -> bool {
        true
    }

    open spec fn spec_is_pointer() -> bool {
        false
    }

    open spec fn spec_clearable() -> bool {
        false
    }

    open spec fn spec_reported() -> bool {
        false
    }

    open spec fn spec_set(&self) -> bool {
        true
    }

    open spec fn spec_code(&self) -> i32 {
        spec_keyboard_keycode(*self)
    }

    open spec fn spec_label(&self) -> Seq<char> {
        spec_key_label(*self)
    }

    open spec fn spec_after_key(key: Key, modifiers: Modifiers) -> Key {
        key
    }

    open spec fn spec_after_pointer(button: PointerButton, modifiers: Modifiers) -> Key {
        arbitrary()
    }

    open spec fn spec_cleared() -> Key {
        arbitrary()
    }

    fn is_key() -> bool {
        true
    }

    fn is_pointer() -> bool {
        false
    }

    fn clearable() -> bool {
        false
    }

    fn reported() -> bool {
        false
    }

    fn key_value(key: Key, _modifiers: Modifiers) -> Key {
        key
    }

    // Unreachable: this variant rejects pointer assignment.
    fn pointer_value(_button: PointerButton, _modifiers: Modifiers) -> Key {
        Key::Space
    }

    fn set_key(&mut self, key: Key, _modifiers: Modifiers) {
        *self = key;
    }

    // Unreachable: this variant rejects pointer assignment.
    fn set_pointer(&mut self, _button: PointerButton, _modifiers: Modifiers) {
    }

    // Unreachable: this variant is not clearable.
    fn clear(&mut self) {
    }

    fn format(&self) -> String {
        key_label(*self).to_owned()
    }

    fn keycode(&self) -> i32 {
        get_keyboard_keycode(*self)
    }

    fn down(&self, is_down: bool) -> bool {
        is_down
    }

    fn pressed(&self, tracker: &mut TransitionTracker, is_down: bool) -> bool {
        tracker.observe_press(get_keyboard_keycode(*self), is_down)
    }

    fn released(&self, tracker: &mut TransitionTracker, is_down: bool) -> bool {
        tracker.observe_release(get_keyboard_keycode(*self), is_down)
    }
}

impl BindTarget for PointerButton {
    open spec fn spec_is_key() -> bool {
        false
    }

    open spec fn spec_is_pointer() -> bool {
        true
    }

    open spec fn spec_clearable() -> bool {
        false
    }

    open spec fn spec_reported() -> bool {
        false
    }

    open spec fn spec_set(&self) -> bool {
        true
    }

    open spec fn spec_code(&self) -> i32 {
        spec_pointer_keycode(*self)
    }

    open spec fn spec_label(&self) -> Seq<char> {
        spec_pointer_label(*self)
    }

    open spec fn spec_after_key(key: Key, modifiers: Modifiers) -> PointerButton {
        arbitrary()
    }

    open spec fn spec_after_pointer(button: PointerButton, modifiers: Modifiers) -> PointerButton {
        button
    }

    open spec fn spec_cleared() -> PointerButton {
        arbitrary()
    }

    fn is_key() -> bool {
        false
    }

    fn is_pointer() -> bool {
        true
    }

    fn clearable() -> bool {
        false
    }

    fn reported() -> bool {
        false
    }

    // Unreachable: this variant rejects key assignment.
    fn key_value(_key: Key, _modifiers: Modifiers) -> PointerButton {
        PointerButton::Primary
    }

    fn pointer_value(button: PointerButton, _modifiers: Modifiers) -> PointerButton {
        button
    }

    // Unreachable: this variant rejects key assignment.
    fn set_key(&mut self, _key: Key, _modifiers: Modifiers) {
    }

    fn set_pointer(&mut self, button: PointerButton, _modifiers: Modifiers) {
        *self = button;
    }

    // Unreachable: this variant is not clearable.
    fn clear(&mut self) {
    }

    fn format(&self) -> String {
        pointer_label(*self).to_owned()
    }

    fn keycode(&self) -> i32 {
        get_pointer_keycode(*self)
    }

    fn down(&self, is_down: bool) -> bool {
        is_down
    }

    fn pressed(&self, tracker: &mut TransitionTracker, is_down: bool) -> bool {
        tracker.observe_press(get_pointer_keycode(*self), is_down)
    }

    fn released(&self, tracker: &mut TransitionTracker, is_down: bool) -> bool {
        tracker.observe_release(get_pointer_keycode(*self), is_down)
    }
}

impl<B: BindTarget> BindTarget for (B, Modifiers) {
    open spec fn spec_is_key() -> bool {
        B::spec_is_key()
    }

    open spec fn spec_is_pointer() -> bool {
        B::spec_is_pointer()
    }

    open spec fn spec_clearable() -> bool {
        false
    }

    open spec fn spec_reported() -> bool {
        false
    }

    open spec fn spec_set(&self) -> bool {
        self.0.spec_set()
    }

    open spec fn spec_code(&self) -> i32 {
        self.0.spec_code()
    }

    open spec fn spec_label(&self) -> Seq<char> {
        spec_modifier_prefix(self.1) + self.0.spec_label()
    }

    open spec fn spec_after_key(key: Key, modifiers: Modifiers) -> (B, Modifiers) {
        (B::spec_after_key(key, modifiers), modifiers)
    }

    open spec fn spec_after_pointer(button: PointerButton, modifiers: Modifiers) -> (B, Modifiers) {
        (B::spec_after_pointer(button, modifiers), modifiers)
    }

    open spec fn spec_cleared() -> (B, Modifiers) {
        arbitrary()
    }

    fn is_key() -> bool {
        B::is_key()
    }

    fn is_pointer() -> bool {
        B::is_pointer()
    }

    fn clearable() -> bool {
        false
    }

    fn reported() -> bool {
        false
    }

    fn key_value(key: Key, modifiers: Modifiers) -> (B, Modifiers) {
        (B::key_value(key, modifiers), modifiers)
    }

    fn pointer_value(button: PointerButton, modifiers: Modifiers) -> (B, Modifiers) {
        (B::pointer_value(button, modifiers), modifiers)
    }

    fn set_key(&mut self, key: Key, modifiers: Modifiers) {
        self.0.set_key(key, modifiers);
        self.1 = modifiers;
    }

    fn set_pointer(&mut self, button: PointerButton, modifiers: Modifiers) {
        self.0.set_pointer(button, modifiers);
        self.1 = modifiers;
    }

    // Unreachable: this variant is not clearable.
    fn clear(&mut self) {
    }

    fn format(&self) -> (r: String) {
        let base = self.0.format();
        let prefix = modifier_prefix(self.1);
        let r = prefix.concat(base.as_str());
        proof {
            assert(r@ =~= self.spec_label());
        }
        r
    }

    fn keycode(&self) -> i32 {
        self.0.keycode()
    }

    fn down(&self, is_down: bool) -> bool {
        self.0.down(is_down)
    }

    fn pressed(&self, tracker: &mut TransitionTracker, is_down: bool) -> bool {
        self.0.pressed(tracker, is_down)
    }

    fn released(&self, tracker: &mut TransitionTracker, is_down: bool) -> bool {
        self.0.released(tracker, is_down)
    }
}

impl<B: BindTarget> BindTarget for Option<(B, Modifiers)> {
    open spec fn spec_is_key() -> bool {
        B::spec_is_key()
    }

    open spec fn spec_is_pointer() -> bool {
        B::spec_is_pointer()
    }

    open spec fn spec_clearable() -> bool {
        true
    }

    open spec fn spec_reported() -> bool {
        false
    }

    open spec fn spec_set(&self) -> bool {
        match self {
            Some(v) => v.spec_set(),
            None => false,
        }
    }

    open spec fn spec_code(&self) -> i32 {
        match self {
            Some(v) => v.spec_code(),
            None => CODE_NONE,
        }
    }

    open spec fn spec_label(&self) -> Seq<char> {
        match self {
            Some(v) => v.spec_label(),
            None => "None"@,
        }
    }

    open spec fn spec_after_key(key: Key, modifiers: Modifiers) -> Option<(B, Modifiers)> {
        Some((B::spec_after_key(key, modifiers), modifiers))
    }

    open spec fn spec_after_pointer(button: PointerButton, modifiers: Modifiers) -> Option<
        (B, Modifiers),
    > {
        Some((B::spec_after_pointer(button, modifiers), modifiers))
    }

    open spec fn spec_cleared() -> Option<(B, Modifiers)> {
        None
    }

    fn is_key() -> bool {
        B::is_key()
    }

    fn is_pointer() -> bool {
        B::is_pointer()
    }

    fn clearable() -> bool {
        true
    }

    fn reported() -> bool {
        false
    }

    fn key_value(key: Key, modifiers: Modifiers) -> Option<(B, Modifiers)> {
        Some((B::key_value(key, modifiers), modifiers))
    }

    fn pointer_value(button: PointerButton, modifiers: Modifiers) -> Option<(B, Modifiers)> {
        Some((B::pointer_value(button, modifiers), modifiers))
    }

    fn set_key(&mut self, key: Key, modifiers: Modifiers) {
        *self = Some((B::key_value(key, modifiers), modifiers));
    }

    fn set_pointer(&mut self, button: PointerButton, modifiers: Modifiers) {
        *self = Some((B::pointer_value(button, modifiers), modifiers));
    }

    fn clear(&mut self) {
        *self = None;
    }

    fn format(&self) -> String {
        match self {
            Some(v) => v.format(),
            None => "None".to_owned(),
        }
    }

    fn keycode(&self) -> i32 {
        match self {
            Some(v) => v.keycode(),
            None => CODE_NONE,
        }
    }

    fn down(&self, is_down: bool) -> bool {
        match self {
            Some(v) => v.down(is_down),
            None => false,
        }
    }

    fn pressed(&self, tracker: &mut TransitionTracker, is_down: bool) -> bool {
        match self {
            Some(v) => v.pressed(tracker, is_down),
            None => false,
        }
    }

    fn released(&self, tracker: &mut TransitionTracker, is_down: bool) -> bool {
        match self {
            Some(v) => v.released(tracker, is_down),
            None => false,
        }
    }
}

} // verus!
