//! Physical key identities and the small pure functions on them.

use vstd::prelude::*;
use vstd::string::*;

verus! {

/// A physical key, named by its position rather than by the character it types.
#[derive(Debug, Clone, Copy, PartialEq, Eq, Hash, Structural)]
pub enum KeyCode {
    ControlLeft,
    ControlRight,
    ShiftLeft,
    ShiftRight,
    Alt,
    AltGr,
    MetaLeft,
    MetaRight,
    Space,
    Tab,
    Return,
    Escape,
    Backspace,
    Delete,
    Insert,
    Home,
    End,
    PageUp,
    PageDown,
    CapsLock,
    UpArrow,
    DownArrow,
    LeftArrow,
    RightArrow,
    F1,
    F2,
    F3,
    F4,
    F5,
    F6,
    F7,
    F8,
    F9,
    F10,
    F11,
    F12,
    A,
    B,
    C,
    D,
    E,
    F,
    G,
    H,
    I,
    J,
    K,
    L,
    M,
    N,
    O,
    P,
    Q,
    R,
    S,
    T,
    U,
    V,
    W,
    X,
    Y,
    Z,
    Num0,
    Num1,
    Num2,
    Num3,
    Num4,
    Num5,
    Num6,
    Num7,
    Num8,
    Num9,
    Slash,
    BackSlash,
    Equal,
    Minus,
    Comma,
    Dot,
    SemiColon,
    Quote,
    LeftBracket,
    RightBracket,
    BackQuote,
}

/// How a shortcut drives recording.
#[derive(Debug, Clone, Copy, PartialEq, Eq, Hash, Structural)]
pub enum ShortcutMode {
    /// Recording lasts while the chord is held down.
    Hold,
    /// Each full press of the chord switches recording on or off.
    Toggle,
}

/// The operating system whose conventions apply: it decides how the meta key
/// is called and which combinations the system keeps for itself.
#[derive(Debug, Clone, Copy, PartialEq, Eq, Hash, Structural)]
pub enum Platform {
    MacOs,
    Windows,
    Other,
}

/// The eight modifier keys.
pub open spec fn is_modifier(key: KeyCode) -> bool {
    key == KeyCode::ControlLeft || key == KeyCode::ControlRight || key == KeyCode::ShiftLeft
        || key == KeyCode::ShiftRight || key == KeyCode::Alt || key == KeyCode::AltGr || key
        == KeyCode::MetaLeft || key == KeyCode::MetaRight
}

/// The canonical form of a key: a right-hand control, shift or meta key
/// becomes its left-hand twin, every other key is its own canonical form.
pub open spec fn normalized(key: KeyCode) -> KeyCode {
    match key {
        KeyCode::ControlRight => KeyCode::ControlLeft,
        KeyCode::ShiftRight => KeyCode::ShiftLeft,
        KeyCode::MetaRight => KeyCode::MetaLeft,
        other => other,
    }
}

/// The rank by which modifiers are ordered for display:
/// control, shift, alt, meta, then everything else.
pub open spec fn sort_rank(key: KeyCode) -> u8 {
    match normalized(key) {
        KeyCode::ControlLeft => 1,
        KeyCode::ShiftLeft => 2,
        KeyCode::Alt => 3,
        KeyCode::AltGr => 3,
        KeyCode::MetaLeft => 4,
        _ => 5,
    }
}

/// The text shown for a key on a given platform.
pub open spec fn key_label(key: KeyCode, platform: Platform) -> Seq<char> {
    match key {
        KeyCode::ControlLeft | KeyCode::ControlRight => "Ctrl"@,
        KeyCode::ShiftLeft | KeyCode::ShiftRight => "Shift"@,
        KeyCode::Alt => "Alt"@,
        KeyCode::AltGr => "AltGr"@,
        KeyCode::MetaLeft | KeyCode::MetaRight => if platform == Platform::MacOs {
            "Cmd"@
        } else {
            "Win"@
        },
        KeyCode::Space => "Space"@,
        KeyCode::Tab => "Tab"@,
        KeyCode::Return => "Enter"@,
        KeyCode::Escape => "Esc"@,
        KeyCode::Backspace => "Backspace"@,
        KeyCode::Slash => "/"@,
        KeyCode::BackSlash => "\\"@,
        KeyCode::Equal => "="@,
        KeyCode::Minus => "-"@,
        KeyCode::Comma => ","@,
        KeyCode::Dot => "."@,
        KeyCode::SemiColon => ";"@,
        KeyCode::Quote => "'"@,
        KeyCode::LeftBracket => "["@,
        KeyCode::RightBracket => "]"@,
        KeyCode::BackQuote => "`"@,
        KeyCode::Delete => "Delete"@,
        KeyCode::Insert => "Insert"@,
        KeyCode::Home => "Home"@,
        KeyCode::End => "End"@,
        KeyCode::PageUp => "PageUp"@,
        KeyCode::PageDown => "PageDown"@,
        KeyCode::CapsLock => "CapsLock"@,
        KeyCode::UpArrow => "↑"@,
        KeyCode::DownArrow => "↓"@,
        KeyCode::LeftArrow => "←"@,
        KeyCode::RightArrow => "→"@,
        KeyCode::F1 => "F1"@,
        KeyCode::F2 => "F2"@,
        KeyCode::F3 => "F3"@,
        KeyCode::F4 => "F4"@,
        KeyCode::F5 => "F5"@,
        KeyCode::F6 => "F6"@,
        KeyCode::F7 => "F7"@,
        KeyCode::F8 => "F8"@,
        KeyCode::F9 => "F9"@,
        KeyCode::F10 => "F10"@,
        KeyCode::F11 => "F11"@,
        KeyCode::F12 => "F12"@,
        KeyCode::A => "A"@,
        KeyCode::B => "B"@,
        KeyCode::C => "C"@,
        KeyCode::D => "D"@,
        KeyCode::E => "E"@,
        KeyCode::F => "F"@,
        KeyCode::G => "G"@,
        KeyCode::H => "H"@,
        KeyCode::I => "I"@,
        KeyCode::J => "J"@,
        KeyCode::K => "K"@,
        KeyCode::L => "L"@,
        KeyCode::M => "M"@,
        KeyCode::N => "N"@,
        KeyCode::O => "O"@,
        KeyCode::P => "P"@,
        KeyCode::Q => "Q"@,
        KeyCode::R => "R"@,
        KeyCode::S => "S"@,
        KeyCode::T => "T"@,
        KeyCode::U => "U"@,
        KeyCode::V => "V"@,
        KeyCode::W => "W"@,
        KeyCode::X => "X"@,
        KeyCode::Y => "Y"@,
        KeyCode::Z => "Z"@,
        KeyCode::Num0 => "0"@,
        KeyCode::Num1 => "1"@,
        KeyCode::Num2 => "2"@,
        KeyCode::Num3 => "3"@,
        KeyCode::Num4 => "4"@,
        KeyCode::Num5 => "5"@,
        KeyCode::Num6 => "6"@,
        KeyCode::Num7 => "7"@,
        KeyCode::Num8 => "8"@,
        KeyCode::Num9 => "9"@,
    }
}

/// Whether `key` is one of the eight modifier keys.
pub fn is_modifier_key(key: &KeyCode) -> (r: bool)
    ensures
        r == is_modifier(*key),
{
    matches!(
        key,
        KeyCode::ControlLeft | KeyCode::ControlRight | KeyCode::ShiftLeft | KeyCode::ShiftRight
            | KeyCode::Alt | KeyCode::AltGr | KeyCode::MetaLeft | KeyCode::MetaRight
    )
}

/// Collapses the left and right variants of a modifier into one canonical key.
pub fn normalize_modifier(key: &KeyCode) -> (r: KeyCode)
    ensures
        r == normalized(*key),
{
    match key {
        KeyCode::ControlLeft | KeyCode::ControlRight => KeyCode::ControlLeft,
        KeyCode::ShiftLeft | KeyCode::ShiftRight => KeyCode::ShiftLeft,
        KeyCode::MetaLeft | KeyCode::MetaRight => KeyCode::MetaLeft,
        _ => *key,
    }
}

/// The display rank of a modifier.
pub fn modifier_sort_key(key: &KeyCode) -> (r: u8)
    ensures
        r == sort_rank(*key),
        1 <= r <= 5,
{
    match normalize_modifier(key) {
        KeyCode::ControlLeft => 1,
        KeyCode::ShiftLeft => 2,
        KeyCode::Alt | KeyCode::AltGr => 3,
        KeyCode::MetaLeft => 4,
        _ => 5,
    }
}

/// The text shown for a key.
pub fn format_keycode(key: &KeyCode, platform: Platform) -> (r: String)
    ensures
        r@ == key_label(*key, platform),
{
    let text = match key {
        KeyCode::ControlLeft | KeyCode::ControlRight => "Ctrl",
        KeyCode::ShiftLeft | KeyCode::ShiftRight => "Shift",
        KeyCode::Alt => "Alt",
        KeyCode::AltGr => "AltGr",
        KeyCode::MetaLeft | KeyCode::MetaRight => {
            if platform == Platform::MacOs {
                "Cmd"
            } else {
                "Win"
            }
        },
        KeyCode::Space => "Space",
        KeyCode::Tab => "Tab",
        KeyCode::Return => "Enter",
        KeyCode::Escape => "Esc",
        KeyCode::Backspace => "Backspace",
        KeyCode::Slash => "/",
        KeyCode::BackSlash => "\\",
        KeyCode::Equal => "=",
        KeyCode::Minus => "-",
        KeyCode::Comma => ",",
        KeyCode::Dot => ".",
        KeyCode::SemiColon => ";",
        KeyCode::Quote => "'",
        KeyCode::LeftBracket => "[",
        KeyCode::RightBracket => "]",
        KeyCode::BackQuote => "`",
        KeyCode::Delete => "Delete",
        KeyCode::Insert => "Insert",
        KeyCode::Home => "Home",
        KeyCode::End => "End",
        KeyCode::PageUp => "PageUp",
        KeyCode::PageDown => "PageDown",
        KeyCode::CapsLock => "CapsLock",
        KeyCode::UpArrow => "↑",
        KeyCode::DownArrow => "↓",
        KeyCode::LeftArrow => "←",
        KeyCode::RightArrow => "→",
        KeyCode::F1 => "F1",
        KeyCode::F2 => "F2",
        KeyCode::F3 => "F3",
        KeyCode::F4 => "F4",
        KeyCode::F5 => "F5",
        KeyCode::F6 => "F6",
        KeyCode::F7 => "F7",
        KeyCode::F8 => "F8",
        KeyCode::F9 => "F9",
        KeyCode::F10 => "F10",
        KeyCode::F11 => "F11",
        KeyCode::F12 => "F12",
        KeyCode::A => "A",
        KeyCode::B => "B",
        KeyCode::C => "C",
        KeyCode::D => "D",
        KeyCode::E => "E",
        KeyCode::F => "F",
        KeyCode::G => "G",
        KeyCode::H => "H",
        KeyCode::I => "I",
        KeyCode::J => "J",
        KeyCode::K => "K",
        KeyCode::L => "L",
        KeyCode::M => "M",
        KeyCode::N => "N",
        KeyCode::O => "O",
        KeyCode::P => "P",
        KeyCode::Q => "Q",
        KeyCode::R => "R",
        KeyCode::S => "S",
        KeyCode::T => "T",
        KeyCode::U => "U",
        KeyCode::V => "V",
        KeyCode::W => "W",
        KeyCode::X => "X",
        KeyCode::Y => "Y",
        KeyCode::Z => "Z",
        KeyCode::Num0 => "0",
        KeyCode::Num1 => "1",
        KeyCode::Num2 => "2",
        KeyCode::Num3 => "3",
        KeyCode::Num4 => "4",
        KeyCode::Num5 => "5",
        KeyCode::Num6 => "6",
        KeyCode::Num7 => "7",
        KeyCode::Num8 => "8",
        KeyCode::Num9 => "9",
    };
    String::from_str(text)
}

} // verus!
