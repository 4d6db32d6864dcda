//! Translation of host key codes into the GUI engine's keys.

use vstd::prelude::*;

verus! {

/// Host code of the left arrow key.
pub const KEY_LEFT: i32 = 0xff51;
/// Host code of the up arrow key.
pub const KEY_UP: i32 = 0xff52;
/// Host code of the right arrow key.
pub const KEY_RIGHT: i32 = 0xff53;
/// Host code of the down arrow key.
pub const KEY_DOWN: i32 = 0xff54;
/// Host code of the escape key.
pub const KEY_ESCAPE: i32 = 0xff1b;
/// Host code of the tab key.
pub const KEY_TAB: i32 = 0xff09;
/// Host code of the backspace key.
pub const KEY_BACKSPACE: i32 = 0xff08;
/// Host code of the insert key.
pub const KEY_INSERT: i32 = 0xff63;
/// Host code of the home key.
pub const KEY_HOME: i32 = 0xff50;
/// Host code of the delete key.
pub const KEY_DELETE: i32 = 0xffff;
/// Host code of the end key.
pub const KEY_END: i32 = 0xff57;
/// Host code of the page down key.
pub const KEY_PAGE_DOWN: i32 = 0xff56;
/// Host code of the page up key.
pub const KEY_PAGE_UP: i32 = 0xff55;
/// Host code of the enter key.
pub const KEY_ENTER: i32 = 0xff0d;

/// The keys that the GUI engine knows.
#[derive(Clone, Copy, Debug, PartialEq, Eq, Structural)]
pub enum Key {
    ArrowDown,
    ArrowLeft,
    ArrowRight,
    ArrowUp,
    Escape,
    Tab,
    Backspace,
    Enter,
    Space,
    Insert,
    Delete,
    Home,
    End,
    PageUp,
    PageDown,
    Num0,
    Num1,
    Num2,
    Num3,
    Num4,
    Num5,
    Num6,
    Num7,
    Num8,
    Num9,
    A,
    B,
    C,
    D,
    E,
    F,
    G,
    H,
    I,
    J,
    K,
    L,
    M,
    N,
    O,
    P,
    Q,
    R,
    S,
    T,
    U,
    V,
    W,
    X,
    Y,
    Z,
}

/// The engine key of a host code that names a key rather than a character.
pub open spec fn named_key(code: i32) -> Option<Key> {
    if code == KEY_LEFT {
        Some(Key::ArrowLeft)
    } else if code == KEY_UP {
        Some(Key::ArrowUp)
    } else if code == KEY_RIGHT {
        Some(Key::ArrowRight)
    } else if code == KEY_DOWN {
        Some(Key::ArrowDown)
    } else if code == KEY_ESCAPE {
        Some(Key::Escape)
    } else if code == KEY_TAB {
        Some(Key::Tab)
    } else if code == KEY_BACKSPACE {
        Some(Key::Backspace)
    } else if code == KEY_INSERT {
        Some(Key::Insert)
    } else if code == KEY_HOME {
        Some(Key::Home)
    } else if code == KEY_DELETE {
        Some(Key::Delete)
    } else if code == KEY_END {
        Some(Key::End)
    } else if code == KEY_PAGE_DOWN {
        Some(Key::PageDown)
    } else if code == KEY_PAGE_UP {
        Some(Key::PageUp)
    } else if code == KEY_ENTER {
        Some(Key::Enter)
    } else {
        None
    }
}

/// The character of a key code: an ASCII code stands for its own
/// character; other codes that are not named keys stand for none.
pub open spec fn key_char(code: i32) -> Option<u8> {
    if 0 <= code < 0x80 {
        Some(code as u8)
    } else {
        None
    }
}

/// The letter keys, in alphabetical order.
pub open spec fn letter_keys() -> Seq<Key> {
    seq![
        Key::A, Key::B, Key::C, Key::D, Key::E, Key::F, Key::G, Key::H, Key::I,
        Key::J, Key::K, Key::L, Key::M, Key::N, Key::O, Key::P, Key::Q, Key::R,
        Key::S, Key::T, Key::U, Key::V, Key::W, Key::X, Key::Y, Key::Z,
    ]
}

/// The digit keys, from zero to nine.
pub open spec fn digit_keys() -> Seq<Key> {
    seq![
        Key::Num0, Key::Num1, Key::Num2, Key::Num3, Key::Num4,
        Key::Num5, Key::Num6, Key::Num7, Key::Num8, Key::Num9,
    ]
}

/// The engine key of a character: space, a lower-case ASCII letter or an
/// ASCII digit.
pub open spec fn char_key(c: u8) -> Option<Key> {
    if c == 0x20 {
        Some(Key::Space)
    } else if 0x61 <= c && c <= 0x7a {
        Some(letter_keys()[c - 0x61])
    } else if 0x30 <= c && c <= 0x39 {
        Some(digit_keys()[c - 0x30])
    } else {
        None
    }
}

/// The engine key of a host key code: the named keys first, then the
/// character that the code carries.
pub open spec fn key_for_code(code: i32) -> Option<Key> {
    match named_key(code) {
        Some(k) => Some(k),
        None => match key_char(code) {
            Some(c) => char_key(c),
            None => None,
        },
    }
}

/// Translates a host key code into the GUI engine's key, if it has one.
pub fn translate_virtual_key_code(key: i32) -> (r: Option<Key>)
    ensures
        r == key_for_code(key),
{
    if key == KEY_LEFT {
        Some(Key::ArrowLeft)
    } else if key == KEY_UP {
        Some(Key::ArrowUp)
    } else if key == KEY_RIGHT {
        Some(Key::ArrowRight)
    } else if key == KEY_DOWN {
        Some(Key::ArrowDown)
    } else if key == KEY_ESCAPE {
        Some(Key::Escape)
    } else if key == KEY_TAB {
        Some(Key::Tab)
    } else if key == KEY_BACKSPACE {
        Some(Key::Backspace)
    } else if key == KEY_INSERT {
        Some(Key::Insert)
    } else if key == KEY_HOME {
        Some(Key::Home)
    } else if key == KEY_DELETE {
        Some(Key::Delete)
    } else if key == KEY_END {
        Some(Key::End)
    } else if key == KEY_PAGE_DOWN {
        Some(Key::PageDown)
    } else if key == KEY_PAGE_UP {
        Some(Key::PageUp)
    } else if key == KEY_ENTER {
        Some(Key::Enter)
    } else if 0 <= key && key < 0x80 {
        translate_char(key as u8)
    } else {
        None
    }
}

/// Translates a character byte into the GUI engine's key, if it has one.
pub fn translate_char(c: u8) -> (r: Option<Key>)
    ensures
        r == char_key(c),
{
    match c {
        0x20 => Some(Key::Space),
        0x30 => Some(Key::Num0),
        0x31 => Some(Key::Num1),
        0x32 => Some(Key::Num2),
        0x33 => Some(Key::Num3),
        0x34 => Some(Key::Num4),
        0x35 => Some(Key::Num5),
        0x36 => Some(Key::Num6),
        0x37 => Some(Key::Num7),
        0x38 => Some(Key::Num8),
        0x39 => Some(Key::Num9),
        0x61 => Some(Key::A),
        0x62 => Some(Key::B),
        0x63 => Some(Key::C),
        0x64 => Some(Key::D),
        0x65 => Some(Key::E),
        0x66 => Some(Key::F),
        0x67 => Some(Key::G),
        0x68 => Some(Key::H),
        0x69 => Some(Key::I),
        0x6a => Some(Key::J),
        0x6b => Some(Key::K),
        0x6c => Some(Key::L),
        0x6d => Some(Key::M),
        0x6e => Some(Key::N),
        0x6f => Some(Key::O),
        0x70 => Some(Key::P),
        0x71 => Some(Key::Q),
        0x72 => Some(Key::R),
        0x73 => Some(Key::S),
        0x74 => Some(Key::T),
        0x75 => Some(Key::U),
        0x76 => Some(Key::V),
        0x77 => Some(Key::W),
        0x78 => Some(Key::X),
        0x79 => Some(Key::Y),
        0x7a => Some(Key::Z),
        _ => None,
    }
}

/// Every host key code that has an engine key has one of its own: no two
/// codes translate to the same key.
pub proof fn lemma_key_table_injective(a: i32, b: i32)
    requires
        key_for_code(a) is Some,
        key_for_code(a) == key_for_code(b),
    ensures
        a == b,
{
    assert(0 <= a < 0x80 ==> a as u8 == a) by (bit_vector);
    assert(0 <= b < 0x80 ==> b as u8 == b) by (bit_vector);
    assert(letter_keys().len() == 26);
    assert(digit_keys().len() == 10);
}

} // verus!
