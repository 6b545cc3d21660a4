//! Synthetic key identities and the table that maps physical keys to them.
//!
//! A synthetic key is a key the virtual keyboard can emit. Each one stands
//! for exactly one platform event code, and a physical key is mirrored by the
//! synthetic key with the same code, when there is one.

use vstd::prelude::*;
use crate::keys;
use crate::keys::KeyCode;
use crate::text::str_equal;

verus! {

/// Keys of the main block, the navigation cluster and the function row.
#[allow(non_camel_case_types)]
#[derive(Clone, Copy, Debug, PartialEq, Eq, Structural, Hash)]
pub enum Key {
    Esc,
    _1,
    _2,
    _3,
    _4,
    _5,
    _6,
    _7,
    _8,
    _9,
    _0,
    Minus,
    Equal,
    BackSpace,
    Tab,
    Q,
    W,
    E,
    R,
    T,
    Y,
    U,
    I,
    O,
    P,
    LeftBrace,
    RightBrace,
    Enter,
    LeftControl,
    A,
    S,
    D,
    F,
    G,
    H,
    J,
    K,
    L,
    SemiColon,
    Apostrophe,
    Grave,
    LeftShift,
    BackSlash,
    Z,
    X,
    C,
    V,
    B,
    N,
    M,
    Comma,
    Dot,
    Slash,
    RightShift,
    LeftAlt,
    Space,
    CapsLock,
    F1,
    F2,
    F3,
    F4,
    F5,
    F6,
    F7,
    F8,
    F9,
    F10,
    NumLock,
    ScrollLock,
    F11,
    F12,
    RightControl,
    SysRq,
    RightAlt,
    Home,
    Up,
    PageUp,
    Left,
    Right,
    End,
    Down,
    PageDown,
    Insert,
    Delete,
    LeftMeta,
    RightMeta,
}

/// Keys of the numeric pad.
#[allow(non_camel_case_types)]
#[derive(Clone, Copy, Debug, PartialEq, Eq, Structural, Hash)]
pub enum KeyPad {
    Asterisk,
    _7,
    _8,
    _9,
    Minus,
    _4,
    _5,
    _6,
    Plus,
    _1,
    _2,
    _3,
    _0,
    Dot,
    Enter,
    Slash,
    Equal,
    Comma,
}

/// Media and power keys.
#[allow(non_camel_case_types)]
#[derive(Clone, Copy, Debug, PartialEq, Eq, Structural, Hash)]
pub enum Misc {
    Mute,
    VolumeDown,
    VolumeUp,
    Pause,
    Sleep,
    WakeUp,
}

/// A key of the synthetic keyboard.
#[derive(Clone, Copy, Debug, PartialEq, Eq, Structural, Hash)]
pub enum UiKey {
    Key(Key),
    KeyPad(KeyPad),
    Misc(Misc),
}

impl Key {
    /// The platform event code of this key.
    pub open spec fn code(self) -> KeyCode {
        match self {
            Key::Esc => keys::KEY_ESC,
            Key::_1 => keys::KEY_1,
            Key::_2 => keys::KEY_2,
            Key::_3 => keys::KEY_3,
            Key::_4 => keys::KEY_4,
            Key::_5 => keys::KEY_5,
            Key::_6 => keys::KEY_6,
            Key::_7 => keys::KEY_7,
            Key::_8 => keys::KEY_8,
            Key::_9 => keys::KEY_9,
            Key::_0 => keys::KEY_0,
            Key::Minus => keys::KEY_MINUS,
            Key::Equal => keys::KEY_EQUAL,
            Key::BackSpace => keys::KEY_BACKSPACE,
            Key::Tab => keys::KEY_TAB,
            Key::Q => keys::KEY_Q,
            Key::W => keys::KEY_W,
            Key::E => keys::KEY_E,
            Key::R => keys::KEY_R,
            Key::T => keys::KEY_T,
            Key::Y => keys::KEY_Y,
            Key::U => keys::KEY_U,
            Key::I => keys::KEY_I,
            Key::O => keys::KEY_O,
            Key::P => keys::KEY_P,
            Key::LeftBrace => keys::KEY_LEFTBRACE,
            Key::RightBrace => keys::KEY_RIGHTBRACE,
            Key::Enter => keys::KEY_ENTER,
            Key::LeftControl => keys::KEY_LEFTCTRL,
            Key::A => keys::KEY_A,
            Key::S => keys::KEY_S,
            Key::D => keys::KEY_D,
            Key::F => keys::KEY_F,
            Key::G => keys::KEY_G,
            Key::H => keys::KEY_H,
            Key::J => keys::KEY_J,
            Key::K => keys::KEY_K,
            Key::L => keys::KEY_L,
            Key::SemiColon => keys::KEY_SEMICOLON,
            Key::Apostrophe => keys::KEY_APOSTROPHE,
            Key::Grave => keys::KEY_GRAVE,
            Key::LeftShift => keys::KEY_LEFTSHIFT,
            Key::BackSlash => keys::KEY_BACKSLASH,
            Key::Z => keys::KEY_Z,
            Key::X => keys::KEY_X,
            Key::C => keys::KEY_C,
            Key::V => keys::KEY_V,
            Key::B => keys::KEY_B,
            Key::N => keys::KEY_N,
            Key::M => keys::KEY_M,
            Key::Comma => keys::KEY_COMMA,
            Key::Dot => keys::KEY_DOT,
            Key::Slash => keys::KEY_SLASH,
            Key::RightShift => keys::KEY_RIGHTSHIFT,
            Key::LeftAlt => keys::KEY_LEFTALT,
            Key::Space => keys::KEY_SPACE,
            Key::CapsLock => keys::KEY_CAPSLOCK,
            Key::F1 => keys::KEY_F1,
            Key::F2 => keys::KEY_F2,
            Key::F3 => keys::KEY_F3,
            Key::F4 => keys::KEY_F4,
            Key::F5 => keys::KEY_F5,
            Key::F6 => keys::KEY_F6,
            Key::F7 => keys::KEY_F7,
            Key::F8 => keys::KEY_F8,
            Key::F9 => keys::KEY_F9,
            Key::F10 => keys::KEY_F10,
            Key::NumLock => keys::KEY_NUMLOCK,
            Key::ScrollLock => keys::KEY_SCROLLLOCK,
            Key::F11 => keys::KEY_F11,
            Key::F12 => keys::KEY_F12,
            Key::RightControl => keys::KEY_RIGHTCTRL,
            Key::SysRq => keys::KEY_SYSRQ,
            Key::RightAlt => keys::KEY_RIGHTALT,
            Key::Home => keys::KEY_HOME,
            Key::Up => keys::KEY_UP,
            Key::PageUp => keys::KEY_PAGEUP,
            Key::Left => keys::KEY_LEFT,
            Key::Right => keys::KEY_RIGHT,
            Key::End => keys::KEY_END,
            Key::Down => keys::KEY_DOWN,
            Key::PageDown => keys::KEY_PAGEDOWN,
            Key::Insert => keys::KEY_INSERT,
            Key::Delete => keys::KEY_DELETE,
            Key::LeftMeta => keys::KEY_LEFTMETA,
            Key::RightMeta => keys::KEY_RIGHTMETA,
        }
    }
}

impl KeyPad {
    /// The platform event code of this key.
    pub open spec fn code(self) -> KeyCode {
        match self {
            KeyPad::Asterisk => keys::KEY_KPASTERISK,
            KeyPad::_7 => keys::KEY_KP7,
            KeyPad::_8 => keys::KEY_KP8,
            KeyPad::_9 => keys::KEY_KP9,
            KeyPad::Minus => keys::KEY_KPMINUS,
            KeyPad::_4 => keys::KEY_KP4,
            KeyPad::_5 => keys::KEY_KP5,
            KeyPad::_6 => keys::KEY_KP6,
            KeyPad::Plus => keys::KEY_KPPLUS,
            KeyPad::_1 => keys::KEY_KP1,
            KeyPad::_2 => keys::KEY_KP2,
            KeyPad::_3 => keys::KEY_KP3,
            KeyPad::_0 => keys::KEY_KP0,
            KeyPad::Dot => keys::KEY_KPDOT,
            KeyPad::Enter => keys::KEY_KPENTER,
            KeyPad::Slash => keys::KEY_KPSLASH,
            KeyPad::Equal => keys::KEY_KPEQUAL,
            KeyPad::Comma => keys::KEY_KPCOMMA,
        }
    }
}

impl Misc {
    /// The platform event code of this key.
    pub open spec fn code(self) -> KeyCode {
        match self {
            Misc::Mute => keys::KEY_MUTE,
            Misc::VolumeDown => keys::KEY_VOLUMEDOWN,
            Misc::VolumeUp => keys::KEY_VOLUMEUP,
            Misc::Pause => keys::KEY_PAUSE,
            Misc::Sleep => keys::KEY_SLEEP,
            Misc::WakeUp => keys::KEY_WAKEUP,
        }
    }
}

impl UiKey {
    /// The platform event code the synthetic keyboard emits for this key.
    pub open spec fn code(self) -> KeyCode {
        match self {
            UiKey::Key(k) => k.code(),
            UiKey::KeyPad(k) => k.code(),
            UiKey::Misc(k) => k.code(),
        }
    }
}

/// The synthetic counterpart of a physical key: the synthetic key that has
/// the same platform code, or `None` where no synthetic key has it.
pub open spec fn translate(key: KeyCode) -> Option<UiKey> {
    if exists|u: UiKey| u.code() == key {
        Some(choose|u: UiKey| u.code() == key)
    } else {
        None
    }
}

/// No two synthetic keys share a platform code.
pub proof fn lemma_code_injective(a: UiKey, b: UiKey)
    requires
        a.code() == b.code(),
    ensures
        a == b,
{
}

/// A physical key that has the code of a synthetic key translates to that
/// synthetic key, and to no other.
pub proof fn lemma_translate_of_code(u: UiKey)
    ensures
        translate(u.code()) == Some(u),
{
    let v = choose|v: UiKey| v.code() == u.code();
    lemma_code_injective(u, v);
}

/// Translation keeps the platform code, so two physical keys with the same
/// synthetic counterpart are the same key.
pub proof fn lemma_translate_keeps_code(key: KeyCode)
    ensures
        translate(key) matches Some(u) ==> u.code() == key,
{
}

/// A physical key without a synthetic counterpart differs from the code of
/// every synthetic key.
pub proof fn lemma_translate_none(key: KeyCode, u: UiKey)
    requires
        translate(key) is None,
    ensures
        u.code() != key,
{
}

/// Every printable key has a synthetic counterpart: what can enter the
/// typed-text buffer can be typed again.
pub proof fn lemma_printable_has_counterpart(key: KeyCode)
    requires
        keys::printable(key),
    ensures
        translate(key) is Some,
{
    // Naming the counterpart of each printable key hands the solver its
    // witness, whichever key it is.
    assert(UiKey::Key(Key::_1).code() == keys::KEY_1);
    assert(UiKey::Key(Key::_2).code() == keys::KEY_2);
    assert(UiKey::Key(Key::_3).code() == keys::KEY_3);
    assert(UiKey::Key(Key::_4).code() == keys::KEY_4);
    assert(UiKey::Key(Key::_5).code() == keys::KEY_5);
    assert(UiKey::Key(Key::_6).code() == keys::KEY_6);
    assert(UiKey::Key(Key::_7).code() == keys::KEY_7);
    assert(UiKey::Key(Key::_8).code() == keys::KEY_8);
    assert(UiKey::Key(Key::_9).code() == keys::KEY_9);
    assert(UiKey::Key(Key::_0).code() == keys::KEY_0);
    assert(UiKey::Key(Key::Minus).code() == keys::KEY_MINUS);
    assert(UiKey::Key(Key::Equal).code() == keys::KEY_EQUAL);
    assert(UiKey::Key(Key::Q).code() == keys::KEY_Q);
    assert(UiKey::Key(Key::W).code() == keys::KEY_W);
    assert(UiKey::Key(Key::E).code() == keys::KEY_E);
    assert(UiKey::Key(Key::R).code() == keys::KEY_R);
    assert(UiKey::Key(Key::T).code() == keys::KEY_T);
    assert(UiKey::Key(Key::Y).code() == keys::KEY_Y);
    assert(UiKey::Key(Key::U).code() == keys::KEY_U);
    assert(UiKey::Key(Key::I).code() == keys::KEY_I);
    assert(UiKey::Key(Key::O).code() == keys::KEY_O);
    assert(UiKey::Key(Key::P).code() == keys::KEY_P);
    assert(UiKey::Key(Key::LeftBrace).code() == keys::KEY_LEFTBRACE);
    assert(UiKey::Key(Key::RightBrace).code() == keys::KEY_RIGHTBRACE);
    assert(UiKey::Key(Key::A).code() == keys::KEY_A);
    assert(UiKey::Key(Key::S).code() == keys::KEY_S);
    assert(UiKey::Key(Key::D).code() == keys::KEY_D);
    assert(UiKey::Key(Key::F).code() == keys::KEY_F);
    assert(UiKey::Key(Key::G).code() == keys::KEY_G);
    assert(UiKey::Key(Key::H).code() == keys::KEY_H);
    assert(UiKey::Key(Key::J).code() == keys::KEY_J);
    assert(UiKey::Key(Key::K).code() == keys::KEY_K);
    assert(UiKey::Key(Key::L).code() == keys::KEY_L);
    assert(UiKey::Key(Key::SemiColon).code() == keys::KEY_SEMICOLON);
    assert(UiKey::Key(Key::Apostrophe).code() == keys::KEY_APOSTROPHE);
    assert(UiKey::Key(Key::Grave).code() == keys::KEY_GRAVE);
    assert(UiKey::Key(Key::BackSlash).code() == keys::KEY_BACKSLASH);
    assert(UiKey::Key(Key::Z).code() == keys::KEY_Z);
    assert(UiKey::Key(Key::X).code() == keys::KEY_X);
    assert(UiKey::Key(Key::C).code() == keys::KEY_C);
    assert(UiKey::Key(Key::V).code() == keys::KEY_V);
    assert(UiKey::Key(Key::B).code() == keys::KEY_B);
    assert(UiKey::Key(Key::N).code() == keys::KEY_N);
    assert(UiKey::Key(Key::M).code() == keys::KEY_M);
    assert(UiKey::Key(Key::Comma).code() == keys::KEY_COMMA);
    assert(UiKey::Key(Key::Dot).code() == keys::KEY_DOT);
    assert(UiKey::Key(Key::Slash).code() == keys::KEY_SLASH);
    assert(UiKey::Key(Key::Space).code() == keys::KEY_SPACE);
    assert(exists|u: UiKey| u.code() == key);
}

/// The synthetic key that a name in the layout-switch combo stands for, or
/// `None` for a name that is not one of the five known ones.
pub open spec fn combo_key(name: Seq<char>) -> Option<UiKey> {
    if name == "KEY_LEFTMETA"@ {
        Some(UiKey::Key(Key::LeftMeta))
    } else if name == "KEY_SPACE"@ {
        Some(UiKey::Key(Key::Space))
    } else if name == "KEY_LEFTSHIFT"@ {
        Some(UiKey::Key(Key::LeftShift))
    } else if name == "KEY_LEFTALT"@ {
        Some(UiKey::Key(Key::LeftAlt))
    } else if name == "KEY_LEFTCTRL"@ {
        Some(UiKey::Key(Key::LeftControl))
    } else {
        None
    }
}

/// Reads the name of one key of the layout-switch combo.
pub fn parse_ui_key(s: &str) -> (r: Option<UiKey>)
    ensures
        r == combo_key(s@),
{
    if str_equal(s, "KEY_LEFTMETA") {
        Some(UiKey::Key(Key::LeftMeta))
    } else if str_equal(s, "KEY_SPACE") {
        Some(UiKey::Key(Key::Space))
    } else if str_equal(s, "KEY_LEFTSHIFT") {
        Some(UiKey::Key(Key::LeftShift))
    } else if str_equal(s, "KEY_LEFTALT") {
        Some(UiKey::Key(Key::LeftAlt))
    } else if str_equal(s, "KEY_LEFTCTRL") {
        Some(UiKey::Key(Key::LeftControl))
    } else {
        None
    }
}

/// Gives the synthetic key that mirrors the physical key `key`, or `None`
/// when the synthetic keyboard has no such key.
pub fn evdev_to_ui_key(key: KeyCode) -> (r: Option<UiKey>)
    ensures
        r == translate(key),
        r matches Some(u) ==> u.code() == key,
{
    let r = match key {
        keys::KEY_ESC => Some(UiKey::Key(Key::Esc)),
        keys::KEY_1 => Some(UiKey::Key(Key::_1)),
        keys::KEY_2 => Some(UiKey::Key(Key::_2)),
        keys::KEY_3 => Some(UiKey::Key(Key::_3)),
        keys::KEY_4 => Some(UiKey::Key(Key::_4)),
        keys::KEY_5 => Some(UiKey::Key(Key::_5)),
        keys::KEY_6 => Some(UiKey::Key(Key::_6)),
        keys::KEY_7 => Some(UiKey::Key(Key::_7)),
        keys::KEY_8 => Some(UiKey::Key(Key::_8)),
        keys::KEY_9 => Some(UiKey::Key(Key::_9)),
        keys::KEY_0 => Some(UiKey::Key(Key::_0)),
        keys::KEY_MINUS => Some(UiKey::Key(Key::Minus)),
        keys::KEY_EQUAL => Some(UiKey::Key(Key::Equal)),
        keys::KEY_BACKSPACE => Some(UiKey::Key(Key::BackSpace)),
        keys::KEY_TAB => Some(UiKey::Key(Key::Tab)),
        keys::KEY_Q => Some(UiKey::Key(Key::Q)),
        keys::KEY_W => Some(UiKey::Key(Key::W)),
        keys::KEY_E => Some(UiKey::Key(Key::E)),
        keys::KEY_R => Some(UiKey::Key(Key::R)),
        keys::KEY_T => Some(UiKey::Key(Key::T)),
        keys::KEY_Y => Some(UiKey::Key(Key::Y)),
        keys::KEY_U => Some(UiKey::Key(Key::U)),
        keys::KEY_I => Some(UiKey::Key(Key::I)),
        keys::KEY_O => Some(UiKey::Key(Key::O)),
        keys::KEY_P => Some(UiKey::Key(Key::P)),
        keys::KEY_LEFTBRACE => Some(UiKey::Key(Key::LeftBrace)),
        keys::KEY_RIGHTBRACE => Some(UiKey::Key(Key::RightBrace)),
        keys::KEY_ENTER => Some(UiKey::Key(Key::Enter)),
        keys::KEY_LEFTCTRL => Some(UiKey::Key(Key::LeftControl)),
        keys::KEY_A => Some(UiKey::Key(Key::A)),
        keys::KEY_S => Some(UiKey::Key(Key::S)),
        keys::KEY_D => Some(UiKey::Key(Key::D)),
        keys::KEY_F => Some(UiKey::Key(Key::F)),
        keys::KEY_G => Some(UiKey::Key(Key::G)),
        keys::KEY_H => Some(UiKey::Key(Key::H)),
        keys::KEY_J => Some(UiKey::Key(Key::J)),
        keys::KEY_K => Some(UiKey::Key(Key::K)),
        keys::KEY_L => Some(UiKey::Key(Key::L)),
        keys::KEY_SEMICOLON => Some(UiKey::Key(Key::SemiColon)),
        keys::KEY_APOSTROPHE => Some(UiKey::Key(Key::Apostrophe)),
        keys::KEY_GRAVE => Some(UiKey::Key(Key::Grave)),
        keys::KEY_LEFTSHIFT => Some(UiKey::Key(Key::LeftShift)),
        keys::KEY_BACKSLASH => Some(UiKey::Key(Key::BackSlash)),
        keys::KEY_Z => Some(UiKey::Key(Key::Z)),
        keys::KEY_X => Some(UiKey::Key(Key::X)),
        keys::KEY_C => Some(UiKey::Key(Key::C)),
        keys::KEY_V => Some(UiKey::Key(Key::V)),
        keys::KEY_B => Some(UiKey::Key(Key::B)),
        keys::KEY_N => Some(UiKey::Key(Key::N)),
        keys::KEY_M => Some(UiKey::Key(Key::M)),
        keys::KEY_COMMA => Some(UiKey::Key(Key::Comma)),
        keys::KEY_DOT => Some(UiKey::Key(Key::Dot)),
        keys::KEY_SLASH => Some(UiKey::Key(Key::Slash)),
        keys::KEY_RIGHTSHIFT => Some(UiKey::Key(Key::RightShift)),
        keys::KEY_KPASTERISK => Some(UiKey::KeyPad(KeyPad::Asterisk)),
        keys::KEY_LEFTALT => Some(UiKey::Key(Key::LeftAlt)),
        keys::KEY_SPACE => Some(UiKey::Key(Key::Space)),
        keys::KEY_CAPSLOCK => Some(UiKey::Key(Key::CapsLock)),
        keys::KEY_F1 => Some(UiKey::Key(Key::F1)),
        keys::KEY_F2 => Some(UiKey::Key(Key::F2)),
        keys::KEY_F3 => Some(UiKey::Key(Key::F3)),
        keys::KEY_F4 => Some(UiKey::Key(Key::F4)),
        keys::KEY_F5 => Some(UiKey::Key(Key::F5)),
        keys::KEY_F6 => Some(UiKey::Key(Key::F6)),
        keys::KEY_F7 => Some(UiKey::Key(Key::F7)),
        keys::KEY_F8 => Some(UiKey::Key(Key::F8)),
        keys::KEY_F9 => Some(UiKey::Key(Key::F9)),
        keys::KEY_F10 => Some(UiKey::Key(Key::F10)),
        keys::KEY_NUMLOCK => Some(UiKey::Key(Key::NumLock)),
        keys::KEY_SCROLLLOCK => Some(UiKey::Key(Key::ScrollLock)),
        keys::KEY_KP7 => Some(UiKey::KeyPad(KeyPad::_7)),
        keys::KEY_KP8 => Some(UiKey::KeyPad(KeyPad::_8)),
        keys::KEY_KP9 => Some(UiKey::KeyPad(KeyPad::_9)),
        keys::KEY_KPMINUS => Some(UiKey::KeyPad(KeyPad::Minus)),
        keys::KEY_KP4 => Some(UiKey::KeyPad(KeyPad::_4)),
        keys::KEY_KP5 => Some(UiKey::KeyPad(KeyPad::_5)),
        keys::KEY_KP6 => Some(UiKey::KeyPad(KeyPad::_6)),
        keys::KEY_KPPLUS => Some(UiKey::KeyPad(KeyPad::Plus)),
        keys::KEY_KP1 => Some(UiKey::KeyPad(KeyPad::_1)),
        keys::KEY_KP2 => Some(UiKey::KeyPad(KeyPad::_2)),
        keys::KEY_KP3 => Some(UiKey::KeyPad(KeyPad::_3)),
        keys::KEY_KP0 => Some(UiKey::KeyPad(KeyPad::_0)),
        keys::KEY_KPDOT => Some(UiKey::KeyPad(KeyPad::Dot)),
        keys::KEY_F11 => Some(UiKey::Key(Key::F11)),
        keys::KEY_F12 => Some(UiKey::Key(Key::F12)),
        keys::KEY_KPENTER => Some(UiKey::KeyPad(KeyPad::Enter)),
        keys::KEY_RIGHTCTRL => Some(UiKey::Key(Key::RightControl)),
        keys::KEY_KPSLASH => Some(UiKey::KeyPad(KeyPad::Slash)),
        keys::KEY_SYSRQ => Some(UiKey::Key(Key::SysRq)),
        keys::KEY_RIGHTALT => Some(UiKey::Key(Key::RightAlt)),
        keys::KEY_HOME => Some(UiKey::Key(Key::Home)),
        keys::KEY_UP => Some(UiKey::Key(Key::Up)),
        keys::KEY_PAGEUP => Some(UiKey::Key(Key::PageUp)),
        keys::KEY_LEFT => Some(UiKey::Key(Key::Left)),
        keys::KEY_RIGHT => Some(UiKey::Key(Key::Right)),
        keys::KEY_END => Some(UiKey::Key(Key::End)),
        keys::KEY_DOWN => Some(UiKey::Key(Key::Down)),
        keys::KEY_PAGEDOWN => Some(UiKey::Key(Key::PageDown)),
        keys::KEY_INSERT => Some(UiKey::Key(Key::Insert)),
        keys::KEY_DELETE => Some(UiKey::Key(Key::Delete)),
        keys::KEY_MUTE => Some(UiKey::Misc(Misc::Mute)),
        keys::KEY_VOLUMEDOWN => Some(UiKey::Misc(Misc::VolumeDown)),
        keys::KEY_VOLUMEUP => Some(UiKey::Misc(Misc::VolumeUp)),
        keys::KEY_KPEQUAL => Some(UiKey::KeyPad(KeyPad::Equal)),
        keys::KEY_PAUSE => Some(UiKey::Misc(Misc::Pause)),
        keys::KEY_KPCOMMA => Some(UiKey::KeyPad(KeyPad::Comma)),
        keys::KEY_LEFTMETA => Some(UiKey::Key(Key::LeftMeta)),
        keys::KEY_RIGHTMETA => Some(UiKey::Key(Key::RightMeta)),
        keys::KEY_SLEEP => Some(UiKey::Misc(Misc::Sleep)),
        keys::KEY_WAKEUP => Some(UiKey::Misc(Misc::WakeUp)),
        _ => None,
    };
    proof {
        match r {
            Some(u) => {
                lemma_translate_of_code(u);
            },
            None => {
                assert forall|u: UiKey| u.code() != key by {
                }
            },
        }
    }
    r
}

} // verus!
