use keybind::keycodes;
use keybind::BindTarget;
use keybind::Key;
use keybind::KeyOrPointer;
use keybind::Modifiers;
use keybind::PointerButton;
use keybind::TransitionTracker;

fn mods(ctrl: bool, shift: bool, alt: bool) -> Modifiers {
    Modifiers { alt, ctrl, shift, mac_cmd: false, command: false }
}

#[test]
fn test_set_opt() {
    let mut b: Option<(Key, Modifiers)> = None;
    let mods = Modifiers {
        alt: true,
        shift: true,
        ctrl: false,
        command: false,
        mac_cmd: false,
    };
    b.set_key(Key::Tab, mods);

    assert_eq!(b, Some((Key::Tab, mods)));
}

#[test]
fn edge_exactly_once_per_transition() {
    // A synthetic down -> up -> down level sequence, observed once per tick,
    // yields exactly one press and one release per transition.
    let mut t = TransitionTracker::new();
    let code = keycodes::VK_SPACE;
    let levels = [true, false, true];
    let mut presses: u32 = 0;
    let mut releases: u32 = 0;
    for lvl in levels {
        if t.observe_press(code, lvl) {
            presses += 1;
        }
        if t.observe_release(code, lvl) {
            releases += 1;
        }
    }
    assert_eq!(presses, 2);
    assert_eq!(releases, 1);
}

#[test]
fn press_reports_only_once_while_held() {
    let mut t = TransitionTracker::new();
    let code = keycodes::VK_A;
    assert!(t.observe_press(code, true));
    // Held down across later ticks: no further press fires.
    assert!(!t.observe_press(code, true));
    assert!(!t.observe_press(code, true));
    // Not released yet: level still down.
    assert!(!t.observe_release(code, true));
    // The up-transition releases exactly once.
    assert!(t.observe_release(code, false));
    assert!(!t.observe_release(code, false));
    // A fresh down-transition presses again.
    assert!(t.observe_press(code, true));
}

#[test]
fn unset_optional_reports_nothing() {
    let mut t = TransitionTracker::new();
    let b: Option<(Key, Modifiers)> = None;
    assert!(!b.down(false));
    assert!(!b.pressed(&mut t, false));
    assert!(!b.released(&mut t, false));
    assert_eq!(b.format(), "None");

    let e: Option<KeyOrPointer> = None;
    assert!(!e.down(false));
    assert!(!e.pressed(&mut t, false));
    assert!(!e.released(&mut t, false));
    assert_eq!(e.format(), "None");
    assert_eq!(e.keycode(), keycodes::CODE_NONE);
}

#[test]
fn unset_optional_ignores_a_down_level() {
    // Even if the host hands a "down" level, an unset binding reports up.
    let mut t = TransitionTracker::new();
    let b: Option<(Key, Modifiers)> = None;
    assert!(!b.down(true));
    assert!(!b.pressed(&mut t, true));
    assert!(!b.released(&mut t, true));
}

#[test]
fn composite_format_prefix_ordering() {
    let mut b: Option<(Key, Modifiers)> = None;
    b.set_key(Key::A, mods(true, true, true));
    assert_eq!(b.format(), "^_*A");
    b.set_key(Key::A, mods(false, true, true));
    assert_eq!(b.format(), "_*A");
    b.set_key(Key::A, mods(true, false, true));
    assert_eq!(b.format(), "^*A");
    b.set_key(Key::A, mods(true, true, false));
    assert_eq!(b.format(), "^_A");
    b.set_key(Key::A, mods(false, false, false));
    assert_eq!(b.format(), "A");
    // The command flag renders the same glyph as ctrl.
    let command = Modifiers { alt: false, ctrl: false, shift: false, mac_cmd: false, command: true };
    b.set_key(Key::K, command);
    assert_eq!(b.format(), "^K");
}

#[test]
fn composite_edges_match_bare_key() {
    // A composite reports the same level and edges as a bare key binding,
    // independent of the captured modifiers.
    let bare = Key::K;
    let composite: (Key, Modifiers) = (Key::K, mods(true, false, true));
    let mut t_bare = TransitionTracker::new();
    let mut t_comp = TransitionTracker::new();
    assert_eq!(bare.keycode(), composite.keycode());
    for lvl in [true, true, false, true] {
        assert_eq!(bare.down(lvl), composite.down(lvl));
        assert_eq!(
            bare.pressed(&mut t_bare, lvl),
            composite.pressed(&mut t_comp, lvl)
        );
        assert_eq!(
            bare.released(&mut t_bare, lvl),
            composite.released(&mut t_comp, lvl)
        );
    }
}

#[test]
fn clear_is_idempotent() {
    let mut b: Option<(Key, Modifiers)> = None;
    b.set_key(Key::F5, mods(true, false, false));
    b.clear();
    assert_eq!(b, None);
    assert_eq!(b.format(), "None");
    b.clear();
    assert_eq!(b, None);
    assert_eq!(b.format(), "None");

    let mut e: Option<KeyOrPointer> = Some(KeyOrPointer::Pointer(PointerButton::Middle));
    e.clear();
    assert_eq!(e, None);
    e.clear();
    assert_eq!(e, None);
}

#[test]
fn aliased_bindings_share_one_debounce() {
    // Plus and Equals legitimately resolve to the same physical code; only
    // the first poller in a tick sees the press.
    let b1 = Key::Plus;
    let b2 = Key::Equals;
    assert_eq!(b1.keycode(), b2.keycode());
    let mut t = TransitionTracker::new();
    assert!(b1.pressed(&mut t, true));
    assert!(!b2.pressed(&mut t, true));
    // The release is shared the same way.
    assert!(b1.released(&mut t, false));
    assert!(!b2.released(&mut t, false));
}

#[test]
fn keycode_mapping_values() {
    assert_eq!(Key::A.keycode(), 0x41);
    assert_eq!(Key::Z.keycode(), 0x5A);
    assert_eq!(Key::F1.keycode(), 0x70);
    assert_eq!(Key::F20.keycode(), 0x83);
    assert_eq!(Key::Num0.keycode(), 0x60);
    assert_eq!(Key::Enter.keycode(), 0x0D);
    assert_eq!(Key::Plus.keycode(), 0xBB);
    assert_eq!(Key::Equals.keycode(), 0xBB);
    assert_eq!(Key::Cut.keycode(), Key::Delete.keycode());
    assert_eq!(Key::Paste.keycode(), Key::Insert.keycode());
    // Unmapped keys resolve to the sentinel no-op code.
    assert_eq!(Key::Copy.keycode(), keycodes::CODE_NONE);
    assert_eq!(Key::Slash.keycode(), keycodes::CODE_NONE);

    assert_eq!(PointerButton::Primary.keycode(), 0x01);
    assert_eq!(PointerButton::Secondary.keycode(), 0x02);
    assert_eq!(PointerButton::Middle.keycode(), 0x04);
    assert_eq!(PointerButton::Extra1.keycode(), 0x05);
    assert_eq!(PointerButton::Extra2.keycode(), 0x06);
}

#[test]
fn display_labels() {
    assert_eq!(Key::Backspace.format(), "BKSP");
    assert_eq!(Key::Escape.format(), "ESC");
    assert_eq!(Key::Enter.format(), "RET");
    assert_eq!(Key::Insert.format(), "INS");
    assert_eq!(Key::Delete.format(), "DEL");
    assert_eq!(Key::PageUp.format(), "PGU");
    assert_eq!(Key::PageDown.format(), "PGD");
    assert_eq!(Key::Equals.format(), "=");
    assert_eq!(Key::Backslash.format(), "\\");
    assert_eq!(Key::Num7.format(), "7");
    assert_eq!(Key::ArrowDown.format(), "ArrowDown");
    assert_eq!(PointerButton::Primary.format(), "M1");
    assert_eq!(PointerButton::Extra2.format(), "M5");
    assert_eq!(KeyOrPointer::Key(Key::Tab).format(), "Tab");
    assert_eq!(
        KeyOrPointer::Pointer(PointerButton::Secondary).format(),
        "M2"
    );
}

#[test]
fn level_from_key_state_reads_high_bit() {
    assert!(keybind::keycodes::level_from_key_state(i16::MIN));
    assert!(keybind::keycodes::level_from_key_state(-1));
    assert!(keybind::keycodes::level_from_key_state(-32767));
    assert!(!keybind::keycodes::level_from_key_state(0));
    assert!(!keybind::keycodes::level_from_key_state(1));
    assert!(!keybind::keycodes::level_from_key_state(i16::MAX));
}

#[test]
fn capability_flags() {
    assert!(<Key as BindTarget>::is_key());
    assert!(!<Key as BindTarget>::is_pointer());
    assert!(!<Key as BindTarget>::clearable());
    assert!(!<Key as BindTarget>::reported());

    assert!(!<PointerButton as BindTarget>::is_key());
    assert!(<PointerButton as BindTarget>::is_pointer());

    assert!(<KeyOrPointer as BindTarget>::is_key());
    assert!(<KeyOrPointer as BindTarget>::is_pointer());
    assert!(!<KeyOrPointer as BindTarget>::clearable());

    assert!(<Option<(Key, Modifiers)> as BindTarget>::is_key());
    assert!(!<Option<(Key, Modifiers)> as BindTarget>::is_pointer());
    assert!(<Option<(Key, Modifiers)> as BindTarget>::clearable());

    assert!(<Option<KeyOrPointer> as BindTarget>::clearable());
    assert!(<Option<(PointerButton, Modifiers)> as BindTarget>::is_pointer());
    assert!(!<Option<(PointerButton, Modifiers)> as BindTarget>::is_key());
}

#[test]
fn key_or_pointer_retags_on_assignment() {
    let mut e = KeyOrPointer::Key(Key::A);
    e.set_pointer(PointerButton::Extra1, Modifiers::none());
    assert_eq!(e, KeyOrPointer::Pointer(PointerButton::Extra1));
    e.set_key(Key::Q, Modifiers::none());
    assert_eq!(e, KeyOrPointer::Key(Key::Q));
    assert_eq!(e.format(), "Q");
}

#[test]
fn composite_assignment_captures_modifiers() {
    let mut c: (KeyOrPointer, Modifiers) = (KeyOrPointer::Key(Key::A), Modifiers::none());
    c.set_pointer(PointerButton::Middle, mods(true, false, false));
    assert_eq!(c.0, KeyOrPointer::Pointer(PointerButton::Middle));
    assert_eq!(c.1, mods(true, false, false));
    assert_eq!(c.format(), "^M3");
}

#[test]
fn forget_resets_a_record() {
    let mut t = TransitionTracker::new();
    let code = keycodes::VK_MBUTTON;
    assert!(t.observe_press(code, true));
    t.forget(code);
    // With the record erased, the same held level presses again.
    assert!(t.observe_press(code, true));
}

#[test]
fn optional_assignment_replaces_in_one_step() {
    let mut b: Option<(KeyOrPointer, Modifiers)> = None;
    b.set_pointer(PointerButton::Extra2, mods(false, true, false));
    assert_eq!(
        b,
        Some((KeyOrPointer::Pointer(PointerButton::Extra2), mods(false, true, false)))
    );
    assert_eq!(b.format(), "_M5");
    b.set_key(Key::Home, Modifiers::none());
    assert_eq!(b, Some((KeyOrPointer::Key(Key::Home), Modifiers::none())));
    assert_eq!(b.format(), "Home");
}

#[test]
fn modifiers_default_is_empty() {
    assert_eq!(Modifiers::default(), Modifiers::none());
    assert_eq!(Modifiers::none(), mods(false, false, false));
}

#[test]
fn pointer_rebind_clears_the_old_record() {
    let mut t = TransitionTracker::new();
    let mut b = PointerButton::Primary;
    assert!(b.pressed(&mut t, true));
    assert!(!b.pressed(&mut t, true));
    keybind::target::rebind_pointer(&mut b, &mut t, PointerButton::Primary, Modifiers::none());
    // The record of the target being left was erased: the still-held level
    // reads as a fresh down-transition.
    assert!(b.pressed(&mut t, true));
}
