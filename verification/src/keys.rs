//! The logical input vocabulary: keyboard keys, pointer buttons and modifier
//! flags, together with their short display labels.

use vstd::prelude::*;

verus! {

/// One logical keyboard key that a binding can be assigned to.
#[derive(Clone, Copy, Debug, PartialEq, Eq, Structural)]
pub enum Key {
    ArrowDown,
    ArrowLeft,
    ArrowRight,
    ArrowUp,
    Escape,
    Tab,
    Backspace,
    Enter,
    Space,
    Insert,
    Delete,
    Home,
    End,
    PageUp,
    PageDown,
    Copy,
    Cut,
    Paste,
    Colon,
    Comma,
    Backslash,
    Slash,
    Pipe,
    Questionmark,
    Quote,
    OpenBracket,
    CloseBracket,
    Backtick,
    Minus,
    Period,
    Plus,
    Equals,
    Semicolon,
    Num0,
    Num1,
    Num2,
    Num3,
    Num4,
    Num5,
    Num6,
    Num7,
    Num8,
    Num9,
    A,
    B,
    C,
    D,
    E,
    F,
    G,
    H,
    I,
    J,
    K,
    L,
    M,
    N,
    O,
    P,
    Q,
    R,
    S,
    T,
    U,
    V,
    W,
    X,
    Y,
    Z,
    F1,
    F2,
    F3,
    F4,
    F5,
    F6,
    F7,
    F8,
    F9,
    F10,
    F11,
    F12,
    F13,
    F14,
    F15,
    F16,
    F17,
    F18,
    F19,
    F20,
}

/// One pointer (mouse) button that a binding can be assigned to.
#[derive(Clone, Copy, Debug, PartialEq, Eq, Structural)]
pub enum PointerButton {
    Primary,
    Secondary,
    Middle,
    Extra1,
    Extra2,
}

/// Modifier flags captured when a binding is assigned.
#[derive(Clone, Copy, Debug, PartialEq, Eq, Structural)]
pub struct Modifiers {
    pub alt: bool,
    pub ctrl: bool,
    pub shift: bool,
    pub mac_cmd: bool,
    pub command: bool,
}

impl Modifiers {
    /// The empty modifier set: no qualifier held.
    pub fn none() -> (r: Modifiers)
        ensures
            r == (Modifiers {
                alt: false,
                ctrl: false,
                shift: false,
                mac_cmd: false,
                command: false,
            }),
    {
        Modifiers { alt: false, ctrl: false, shift: false, mac_cmd: false, command: false }
    }
}

impl core::default::Default for Modifiers {
    fn default() -> (r: Modifiers)
        ensures
            r == (Modifiers {
                alt: false,
                ctrl: false,
                shift: false,
                mac_cmd: false,
                command: false,
            }),
    {
        Modifiers::none()
    }
}

/// The display label of a key, as a sequence of characters.
pub open spec fn spec_key_label(k: Key) -> Seq<char> {
    match k {
        Key::ArrowDown => "ArrowDown"@,
        Key::ArrowLeft => "ArrowLeft"@,
        Key::ArrowRight => "ArrowRight"@,
        Key::ArrowUp => "ArrowUp"@,
        Key::Escape => "ESC"@,
        Key::Tab => "Tab"@,
        Key::Backspace => "BKSP"@,
        Key::Enter => "RET"@,
        Key::Space => "Space"@,
        Key::Insert => "INS"@,
        Key::Delete => "DEL"@,
        Key::Home => "Home"@,
        Key::End => "End"@,
        Key::PageUp => "PGU"@,
        Key::PageDown => "PGD"@,
        Key::Copy => "Copy"@,
        Key::Cut => "Cut"@,
        Key::Paste => "Paste"@,
        Key::Colon => ":"@,
        Key::Comma => ","@,
        Key::Backslash => "\\"@,
        Key::Slash => "Slash"@,
        Key::Pipe => "Pipe"@,
        Key::Questionmark => "Questionmark"@,
        Key::Quote => "Quote"@,
        Key::OpenBracket => "["@,
        Key::CloseBracket => "]"@,
        Key::Backtick => "`"@,
        Key::Minus => "-"@,
        Key::Period => "."@,
        Key::Plus => "+"@,
        Key::Equals => "="@,
        Key::Semicolon => ";"@,
        Key::Num0 => "0"@,
        Key::Num1 => "1"@,
        Key::Num2 => "2"@,
        Key::Num3 => "3"@,
        Key::Num4 => "4"@,
        Key::Num5 => "5"@,
        Key::Num6 => "6"@,
        Key::Num7 => "7"@,
        Key::Num8 => "8"@,
        Key::Num9 => "9"@,
        Key::A => "A"@,
        Key::B => "B"@,
        Key::C => "C"@,
        Key::D => "D"@,
        Key::E => "E"@,
        Key::F => "F"@,
        Key::G => "G"@,
        Key::H => "H"@,
        Key::I => "I"@,
        Key::J => "J"@,
        Key::K => "K"@,
        Key::L => "L"@,
        Key::M => "M"@,
        Key::N => "N"@,
        Key::O => "O"@,
        Key::P => "P"@,
        Key::Q => "Q"@,
        Key::R => "R"@,
        Key::S => "S"@,
        Key::T => "T"@,
        Key::U => "U"@,
        Key::V => "V"@,
        Key::W => "W"@,
        Key::X => "X"@,
        Key::Y => "Y"@,
        Key::Z => "Z"@,
        Key::F1 => "F1"@,
        Key::F2 => "F2"@,
        Key::F3 => "F3"@,
        Key::F4 => "F4"@,
        Key::F5 => "F5"@,
        Key::F6 => "F6"@,
        Key::F7 => "F7"@,
        Key::F8 => "F8"@,
        Key::F9 => "F9"@,
        Key::F10 => "F10"@,
        Key::F11 => "F11"@,
        Key::F12 => "F12"@,
        Key::F13 => "F13"@,
        Key::F14 => "F14"@,
        Key::F15 => "F15"@,
        Key::F16 => "F16"@,
        Key::F17 => "F17"@,
        Key::F18 => "F18"@,
        Key::F19 => "F19"@,
        Key::F20 => "F20"@,
    }
}

/// Returns the display label of a key: a short abbreviation for editing keys,
/// the punctuation character itself, the digit, or the key's plain name.
pub fn key_label(k: Key) -> (r: &'static str)
    ensures
        r@ == spec_key_label(k),
{
    match k {
        Key::ArrowDown => "ArrowDown",
        Key::ArrowLeft => "ArrowLeft",
        Key::ArrowRight => "ArrowRight",
        Key::ArrowUp => "ArrowUp",
        Key::Escape => "ESC",
        Key::Tab => "Tab",
        Key::Backspace => "BKSP",
        Key::Enter => "RET",
        Key::Space => "Space",
        Key::Insert => "INS",
        Key::Delete => "DEL",
        Key::Home => "Home",
        Key::End => "End",
        Key::PageUp => "PGU",
        Key::PageDown => "PGD",
        Key::Copy => "Copy",
        Key::Cut => "Cut",
        Key::Paste => "Paste",
        Key::Colon => ":",
        Key::Comma => ",",
        Key::Backslash => "\\",
        Key::Slash => "Slash",
        Key::Pipe => "Pipe",
        Key::Questionmark => "Questionmark",
        Key::Quote => "Quote",
        Key::OpenBracket => "[",
        Key::CloseBracket => "]",
        Key::Backtick => "`",
        Key::Minus => "-",
        Key::Period => ".",
        Key::Plus => "+",
        Key::Equals => "=",
        Key::Semicolon => ";",
        Key::Num0 => "0",
        Key::Num1 => "1",
        Key::Num2 => "2",
        Key::Num3 => "3",
        Key::Num4 => "4",
        Key::Num5 => "5",
        Key::Num6 => "6",
        Key::Num7 => "7",
        Key::Num8 => "8",
        Key::Num9 => "9",
        Key::A => "A",
        Key::B => "B",
        Key::C => "C",
        Key::D => "D",
        Key::E => "E",
        Key::F => "F",
        Key::G => "G",
        Key::H => "H",
        Key::I => "I",
        Key::J => "J",
        Key::K => "K",
        Key::L => "L",
        Key::M => "M",
        Key::N => "N",
        Key::O => "O",
        Key::P => "P",
        Key::Q => "Q",
        Key::R => "R",
        Key::S => "S",
        Key::T => "T",
        Key::U => "U",
        Key::V => "V",
        Key::W => "W",
        Key::X => "X",
        Key::Y => "Y",
        Key::Z => "Z",
        Key::F1 => "F1",
        Key::F2 => "F2",
        Key::F3 => "F3",
        Key::F4 => "F4",
        Key::F5 => "F5",
        Key::F6 => "F6",
        Key::F7 => "F7",
        Key::F8 => "F8",
        Key::F9 => "F9",
        Key::F10 => "F10",
        Key::F11 => "F11",
        Key::F12 => "F12",
        Key::F13 => "F13",
        Key::F14 => "F14",
        Key::F15 => "F15",
        Key::F16 => "F16",
        Key::F17 => "F17",
        Key::F18 => "F18",
        Key::F19 => "F19",
        Key::F20 => "F20",
    }
}

/// The display label of a pointer button.
pub open spec fn spec_pointer_label(b: PointerButton) -> Seq<char> {
    match b {
        PointerButton::Primary => "M1"@,
        PointerButton::Secondary => "M2"@,
        PointerButton::Middle => "M3"@,
        PointerButton::Extra1 => "M4"@,
        PointerButton::Extra2 => "M5"@,
    }
}

/// Returns the display label of a pointer button, "M1" through "M5".
pub fn pointer_label(b: PointerButton) -> (r: &'static str)
    ensures
        r@ == spec_pointer_label(b),
{
    match b {
        PointerButton::Primary => "M1",
        PointerButton::Secondary => "M2",
        PointerButton::Middle => "M3",
        PointerButton::Extra1 => "M4",
        PointerButton::Extra2 => "M5",
    }
}

} // verus!
