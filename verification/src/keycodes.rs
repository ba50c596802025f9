//! The static lookup from logical keys and pointer buttons to physical input
//! codes (Win32 virtual-key values), and the decoding of a raw key-state word
//! into a level reading.

use vstd::prelude::*;
use crate::keys::Key;
use crate::keys::PointerButton;

verus! {

/// Sentinel physical code: no input. Its level is always reported up.
pub const CODE_NONE: i32 = 0;

pub const VK_LBUTTON: i32 = 0x01;

pub const VK_RBUTTON: i32 = 0x02;

pub const VK_MBUTTON: i32 = 0x04;

pub const VK_XBUTTON1: i32 = 0x05;

pub const VK_XBUTTON2: i32 = 0x06;

pub const VK_BACK: i32 = 0x08;

pub const VK_TAB: i32 = 0x09;

pub const VK_RETURN: i32 = 0x0D;

pub const VK_ESCAPE: i32 = 0x1B;

pub const VK_SPACE: i32 = 0x20;

pub const VK_PRIOR: i32 = 0x21;

pub const VK_NEXT: i32 = 0x22;

pub const VK_END: i32 = 0x23;

pub const VK_HOME: i32 = 0x24;

pub const VK_LEFT: i32 = 0x25;

pub const VK_UP: i32 = 0x26;

pub const VK_RIGHT: i32 = 0x27;

pub const VK_DOWN: i32 = 0x28;

pub const VK_INSERT: i32 = 0x2D;

pub const VK_DELETE: i32 = 0x2E;

pub const VK_A: i32 = 0x41;

pub const VK_B: i32 = 0x42;

pub const VK_C: i32 = 0x43;

pub const VK_D: i32 = 0x44;

pub const VK_E: i32 = 0x45;

pub const VK_F: i32 = 0x46;

pub const VK_G: i32 = 0x47;

pub const VK_H: i32 = 0x48;

pub const VK_I: i32 = 0x49;

pub const VK_J: i32 = 0x4A;

pub const VK_K: i32 = 0x4B;

pub const VK_L: i32 = 0x4C;

pub const VK_M: i32 = 0x4D;

pub const VK_N: i32 = 0x4E;

pub const VK_O: i32 = 0x4F;

pub const VK_P: i32 = 0x50;

pub const VK_Q: i32 = 0x51;

pub const VK_R: i32 = 0x52;

pub const VK_S: i32 = 0x53;

pub const VK_T: i32 = 0x54;

pub const VK_U: i32 = 0x55;

pub const VK_V: i32 = 0x56;

pub const VK_W: i32 = 0x57;

pub const VK_X: i32 = 0x58;

pub const VK_Y: i32 = 0x59;

pub const VK_Z: i32 = 0x5A;

pub const VK_NUMPAD0: i32 = 0x60;

pub const VK_NUMPAD1: i32 = 0x61;

pub const VK_NUMPAD2: i32 = 0x62;

pub const VK_NUMPAD3: i32 = 0x63;

pub const VK_NUMPAD4: i32 = 0x64;

pub const VK_NUMPAD5: i32 = 0x65;

pub const VK_NUMPAD6: i32 = 0x66;

pub const VK_NUMPAD7: i32 = 0x67;

pub const VK_NUMPAD8: i32 = 0x68;

pub const VK_NUMPAD9: i32 = 0x69;

pub const VK_F1: i32 = 0x70;

pub const VK_F2: i32 = 0x71;

pub const VK_F3: i32 = 0x72;

pub const VK_F4: i32 = 0x73;

pub const VK_F5: i32 = 0x74;

pub const VK_F6: i32 = 0x75;

pub const VK_F7: i32 = 0x76;

pub const VK_F8: i32 = 0x77;

pub const VK_F9: i32 = 0x78;

pub const VK_F10: i32 = 0x79;

pub const VK_F11: i32 = 0x7A;

pub const VK_F12: i32 = 0x7B;

pub const VK_F13: i32 = 0x7C;

pub const VK_F14: i32 = 0x7D;

pub const VK_F15: i32 = 0x7E;

pub const VK_F16: i32 = 0x7F;

pub const VK_F17: i32 = 0x80;

pub const VK_F18: i32 = 0x81;

pub const VK_F19: i32 = 0x82;

pub const VK_F20: i32 = 0x83;

pub const VK_OEM_1: i32 = 0xBA;

pub const VK_OEM_PLUS: i32 = 0xBB;

pub const VK_OEM_COMMA: i32 = 0xBC;

pub const VK_OEM_MINUS: i32 = 0xBD;

pub const VK_OEM_PERIOD: i32 = 0xBE;

pub const VK_OEM_3: i32 = 0xC0;

pub const VK_OEM_4: i32 = 0xDB;

pub const VK_OEM_5: i32 = 0xDC;

pub const VK_OEM_6: i32 = 0xDD;

/// The physical code a pointer button resolves to.
pub open spec fn spec_pointer_keycode(button: PointerButton) -> i32 {
    match button {
        PointerButton::Primary => VK_LBUTTON,
        PointerButton::Secondary => VK_RBUTTON,
        PointerButton::Middle => VK_MBUTTON,
        PointerButton::Extra1 => VK_XBUTTON1,
        PointerButton::Extra2 => VK_XBUTTON2,
    }
}

/// Resolves a pointer button to its physical input code.
pub fn get_pointer_keycode(button: PointerButton) -> (code: i32)
    ensures
        code == spec_pointer_keycode(button),
{
    match button {
        PointerButton::Middle => VK_MBUTTON,
        PointerButton::Primary => VK_LBUTTON,
        PointerButton::Secondary => VK_RBUTTON,
        PointerButton::Extra1 => VK_XBUTTON1,
        PointerButton::Extra2 => VK_XBUTTON2,
    }
}

/// The physical code a logical key resolves to; [`CODE_NONE`] where the key
/// has no mapping.
pub open spec fn spec_keyboard_keycode(key: Key) -> i32 {
    match key {
        Key::ArrowDown => VK_DOWN,
        Key::ArrowLeft => VK_LEFT,
        Key::ArrowRight => VK_RIGHT,
        Key::ArrowUp => VK_UP,
        Key::Escape => VK_ESCAPE,
        Key::Tab => VK_TAB,
        Key::Backspace => VK_BACK,
        Key::Enter => VK_RETURN,
        Key::Space => VK_SPACE,
        Key::Insert => VK_INSERT,
        Key::Delete => VK_DELETE,
        Key::Home => VK_HOME,
        Key::End => VK_END,
        Key::PageUp => VK_PRIOR,
        Key::PageDown => VK_NEXT,
        Key::Cut => VK_DELETE,
        Key::Paste => VK_INSERT,
        Key::Colon => VK_OEM_1,
        Key::Comma => VK_OEM_COMMA,
        Key::Backslash => VK_OEM_5,
        Key::OpenBracket => VK_OEM_4,
        Key::CloseBracket => VK_OEM_6,
        Key::Backtick => VK_OEM_3,
        Key::Minus => VK_OEM_MINUS,
        Key::Period => VK_OEM_PERIOD,
        Key::Plus => VK_OEM_PLUS,
        Key::Equals => VK_OEM_PLUS,
        Key::Semicolon => VK_OEM_1,
        Key::Num0 => VK_NUMPAD0,
        Key::Num1 => VK_NUMPAD1,
        Key::Num2 => VK_NUMPAD2,
        Key::Num3 => VK_NUMPAD3,
        Key::Num4 => VK_NUMPAD4,
        Key::Num5 => VK_NUMPAD5,
        Key::Num6 => VK_NUMPAD6,
        Key::Num7 => VK_NUMPAD7,
        Key::Num8 => VK_NUMPAD8,
        Key::Num9 => VK_NUMPAD9,
        Key::A => VK_A,
        Key::B => VK_B,
        Key::C => VK_C,
        Key::D => VK_D,
        Key::E => VK_E,
        Key::F => VK_F,
        Key::G => VK_G,
        Key::H => VK_H,
        Key::I => VK_I,
        Key::J => VK_J,
        Key::K => VK_K,
        Key::L => VK_L,
        Key::M => VK_M,
        Key::N => VK_N,
        Key::O => VK_O,
        Key::P => VK_P,
        Key::Q => VK_Q,
        Key::R => VK_R,
        Key::S => VK_S,
        Key::T => VK_T,
        Key::U => VK_U,
        Key::V => VK_V,
        Key::W => VK_W,
        Key::X => VK_X,
        Key::Y => VK_Y,
        Key::Z => VK_Z,
        Key::F1 => VK_F1,
        Key::F2 => VK_F2,
        Key::F3 => VK_F3,
        Key::F4 => VK_F4,
        Key::F5 => VK_F5,
        Key::F6 => VK_F6,
        Key::F7 => VK_F7,
        Key::F8 => VK_F8,
        Key::F9 => VK_F9,
        Key::F10 => VK_F10,
        Key::F11 => VK_F11,
        Key::F12 => VK_F12,
        Key::F13 => VK_F13,
        Key::F14 => VK_F14,
        Key::F15 => VK_F15,
        Key::F16 => VK_F16,
        Key::F17 => VK_F17,
        Key::F18 => VK_F18,
        Key::F19 => VK_F19,
        Key::F20 => VK_F20,
        _ => CODE_NONE,
    }
}

/// Resolves a logical key to its physical input code; an unmapped key
/// resolves to the sentinel [`CODE_NONE`].
pub fn get_keyboard_keycode(key: Key) -> (code: i32)
    ensures
        code == spec_keyboard_keycode(key),
{
    match key {
        Key::ArrowDown => VK_DOWN,
        Key::ArrowLeft => VK_LEFT,
        Key::ArrowRight => VK_RIGHT,
        Key::ArrowUp => VK_UP,
        Key::Escape => VK_ESCAPE,
        Key::Tab => VK_TAB,
        Key::Backspace => VK_BACK,
        Key::Enter => VK_RETURN,
        Key::Space => VK_SPACE,
        Key::Insert => VK_INSERT,
        Key::Delete => VK_DELETE,
        Key::Home => VK_HOME,
        Key::End => VK_END,
        Key::PageUp => VK_PRIOR,
        Key::PageDown => VK_NEXT,
        Key::Cut => VK_DELETE,
        Key::Paste => VK_INSERT,
        Key::Colon => VK_OEM_1,
        Key::Comma => VK_OEM_COMMA,
        Key::Backslash => VK_OEM_5,
        Key::OpenBracket => VK_OEM_4,
        Key::CloseBracket => VK_OEM_6,
        Key::Backtick => VK_OEM_3,
        Key::Minus => VK_OEM_MINUS,
        Key::Period => VK_OEM_PERIOD,
        Key::Plus => VK_OEM_PLUS,
        Key::Equals => VK_OEM_PLUS,
        Key::Semicolon => VK_OEM_1,
        Key::Num0 => VK_NUMPAD0,
        Key::Num1 => VK_NUMPAD1,
        Key::Num2 => VK_NUMPAD2,
        Key::Num3 => VK_NUMPAD3,
        Key::Num4 => VK_NUMPAD4,
        Key::Num5 => VK_NUMPAD5,
        Key::Num6 => VK_NUMPAD6,
        Key::Num7 => VK_NUMPAD7,
        Key::Num8 => VK_NUMPAD8,
        Key::Num9 => VK_NUMPAD9,
        Key::A => VK_A,
        Key::B => VK_B,
        Key::C => VK_C,
        Key::D => VK_D,
        Key::E => VK_E,
        Key::F => VK_F,
        Key::G => VK_G,
        Key::H => VK_H,
        Key::I => VK_I,
        Key::J => VK_J,
        Key::K => VK_K,
        Key::L => VK_L,
        Key::M => VK_M,
        Key::N => VK_N,
        Key::O => VK_O,
        Key::P => VK_P,
        Key::Q => VK_Q,
        Key::R => VK_R,
        Key::S => VK_S,
        Key::T => VK_T,
        Key::U => VK_U,
        Key::V => VK_V,
        Key::W => VK_W,
        Key::X => VK_X,
        Key::Y => VK_Y,
        Key::Z => VK_Z,
        Key::F1 => VK_F1,
        Key::F2 => VK_F2,
        Key::F3 => VK_F3,
        Key::F4 => VK_F4,
        Key::F5 => VK_F5,
        Key::F6 => VK_F6,
        Key::F7 => VK_F7,
        Key::F8 => VK_F8,
        Key::F9 => VK_F9,
        Key::F10 => VK_F10,
        Key::F11 => VK_F11,
        Key::F12 => VK_F12,
        Key::F13 => VK_F13,
        Key::F14 => VK_F14,
        Key::F15 => VK_F15,
        Key::F16 => VK_F16,
        Key::F17 => VK_F17,
        Key::F18 => VK_F18,
        Key::F19 => VK_F19,
        Key::F20 => VK_F20,
        _ => CODE_NONE,
    }
}

/// Decodes the raw key-state word of the host's input query into a level
/// reading: the input is down exactly when the high bit is set.
pub fn level_from_key_state(state: i16) -> (down: bool)
    ensures
        down == (state < 0),
{
    let down = ((state >> 15) & 1) != 0;
    proof {
        assert((((state >> 15) & 1) != 0) == (state < 0)) by (bit_vector);
    }
    down
}

} // verus!
