//! A bind target that can hold either a keyboard key or a pointer button,
//! decided at assignment time, and its clearable optional form.

use vstd::prelude::*;
use crate::keycodes::CODE_NONE;
use crate::keys::Key;
use crate::keys::Modifiers;
use crate::keys::PointerButton;
use crate::target::BindTarget;
use crate::tracker::TransitionTracker;

verus! {

/// Bind target that can be either a [`Key`] or a [`PointerButton`].
#[derive(Clone, Copy, Debug, PartialEq, Eq, Structural)]
pub enum KeyOrPointer {
    /// Key bind.
    Key(Key),
    /// Pointer bind.
    Pointer(PointerButton),
}

impl BindTarget for KeyOrPointer {
    open spec fn spec_is_key() -> bool {
        true
    }

    open spec fn spec_is_pointer() -> bool {
        true
    }

    open spec fn spec_clearable() -> bool {
        false
    }

    open spec fn spec_reported() -> bool {
        false
    }

    open spec fn spec_set(&self) -> bool {
        true
    }

    open spec fn spec_code(&self) -> i32 {
        match self {
            KeyOrPointer::Key(k) => k.spec_code(),
            KeyOrPointer::Pointer(p) => p.spec_code(),
        }
    }

    open spec fn spec_label(&self) -> Seq<char> {
        match self {
            KeyOrPointer::Key(k) => k.spec_label(),
            KeyOrPointer::Pointer(p) => p.spec_label(),
        }
    }

    open spec fn spec_after_key(key: Key, modifiers: Modifiers) -> KeyOrPointer {
        KeyOrPointer::Key(key)
    }

    open spec fn spec_after_pointer(button: PointerButton, modifiers: Modifiers) -> KeyOrPointer {
        KeyOrPointer::Pointer(button)
    }

    open spec fn spec_cleared() -> KeyOrPointer {
        arbitrary()
    }

    fn is_key() -> bool {
        true
    }

    fn is_pointer() -> bool {
        true
    }

    fn clearable() -> bool {
        false
    }

    fn reported() -> bool {
        false
    }

    fn key_value(key: Key, _modifiers: Modifiers) -> KeyOrPointer {
        KeyOrPointer::Key(key)
    }

    fn pointer_value(button: PointerButton, _modifiers: Modifiers) -> KeyOrPointer {
        KeyOrPointer::Pointer(button)
    }

    fn set_key(&mut self, key: Key, _modifiers: Modifiers) {
        *self = KeyOrPointer::Key(key);
    }

    fn set_pointer(&mut self, button: PointerButton, _modifiers: Modifiers) {
        *self = KeyOrPointer::Pointer(button);
    }

    // Unreachable: this variant is not clearable.
    fn clear(&mut self) {
    }

    fn format(&self) -> String {
        match self {
            KeyOrPointer::Key(k) => k.format(),
            KeyOrPointer::Pointer(p) => p.format(),
        }
    }

    fn keycode(&self) -> i32 {
        match self {
            KeyOrPointer::Key(k) => k.keycode(),
            KeyOrPointer::Pointer(p) => p.keycode(),
        }
    }

    fn down(&self, is_down: bool) -> bool {
        match self {
            KeyOrPointer::Key(k) => k.down(is_down),
            KeyOrPointer::Pointer(p) => p.down(is_down),
        }
    }

    fn pressed(&self, tracker: &mut TransitionTracker, is_down: bool) -> bool {
        match self {
            KeyOrPointer::Key(k) => k.pressed(tracker, is_down),
            KeyOrPointer::Pointer(p) => p.pressed(tracker, is_down),
        }
    }

    fn released(&self, tracker: &mut TransitionTracker, is_down: bool) -> bool {
        match self {
            KeyOrPointer::Key(k) => k.released(tracker, is_down),
            KeyOrPointer::Pointer(p) => p.released(tracker, is_down),
        }
    }
}

impl BindTarget for Option<KeyOrPointer> {
    open spec fn spec_is_key() -> bool {
        true
    }

    open spec fn spec_is_pointer() -> bool {
        true
    }

    open spec fn spec_clearable() -> bool {
        true
    }

    open spec fn spec_reported() -> bool {
        false
    }

    open spec fn spec_set(&self) -> bool {
        self is Some
    }

    open spec fn spec_code(&self) -> i32 {
        match self {
            Some(v) => v.spec_code(),
            None => CODE_NONE,
        }
    }

    open spec fn spec_label(&self) -> Seq<char> {
        match self {
            Some(v) => v.spec_label(),
            None => "None"@,
        }
    }

    open spec fn spec_after_key(key: Key, modifiers: Modifiers) -> Option<KeyOrPointer> {
        Some(KeyOrPointer::Key(key))
    }

    open spec fn spec_after_pointer(button: PointerButton, modifiers: Modifiers) -> Option<
        KeyOrPointer,
    > {
        Some(KeyOrPointer::Pointer(button))
    }

    open spec fn spec_cleared() -> Option<KeyOrPointer> {
        None
    }

    fn is_key() -> bool {
        true
    }

    fn is_pointer() -> bool {
        true
    }

    fn clearable() -> bool {
        true
    }

    fn reported() -> bool {
        false
    }

    fn key_value(key: Key, _modifiers: Modifiers) -> Option<KeyOrPointer> {
        Some(KeyOrPointer::Key(key))
    }

    fn pointer_value(button: PointerButton, _modifiers: Modifiers) -> Option<KeyOrPointer> {
        Some(KeyOrPointer::Pointer(button))
    }

    fn set_key(&mut self, key: Key, _modifiers: Modifiers) {
        *self = Some(KeyOrPointer::Key(key));
    }

    fn set_pointer(&mut self, button: PointerButton, _modifiers: Modifiers) {
        *self = Some(KeyOrPointer::Pointer(button));
    }

    fn clear(&mut self) {
        *self = None;
    }

    fn format(&self) -> String {
        match self {
            Some(v) => v.format(),
            None => "None".to_owned(),
        }
    }

    fn keycode(&self) -> i32 {
        match self {
            Some(v) => v.keycode(),
            None => CODE_NONE,
        }
    }

    fn down(&self, is_down: bool) -> bool {
        match self {
            Some(v) => v.down(is_down),
            None => false,
        }
    }

    fn pressed(&self, tracker: &mut TransitionTracker, is_down: bool) -> bool {
        match self {
            Some(v) => v.pressed(tracker, is_down),
            None => false,
        }
    }

    fn released(&self, tracker: &mut TransitionTracker, is_down: bool) -> bool {
        match self {
            Some(v) => v.released(tracker, is_down),
            None => false,
        }
    }
}

} // verus!
