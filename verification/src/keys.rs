//! Physical key identities and how the switcher classifies them.
//!
//! A physical key is known by its platform scancode, the number the kernel
//! reports for it. The constants below name the scancodes the switcher
//! refers to; any other `u16` is a valid key identity too.

use vstd::prelude::*;
use crate::text::str_equal;

verus! {

/// Identity of a physical key: its platform scancode.
pub type KeyCode = u16;

/// One printable keystroke as seen at press time: the key, and whether a
/// shift key was held at that instant.
pub type BufferedKeystroke = (KeyCode, bool);

// The scancodes of the keys that have a counterpart on the synthetic
// keyboard, under the names the platform gives them.

pub const KEY_ESC: KeyCode = 1;

pub const KEY_1: KeyCode = 2;

pub const KEY_2: KeyCode = 3;

pub const KEY_3: KeyCode = 4;

pub const KEY_4: KeyCode = 5;

pub const KEY_5: KeyCode = 6;

pub const KEY_6: KeyCode = 7;

pub const KEY_7: KeyCode = 8;

pub const KEY_8: KeyCode = 9;

pub const KEY_9: KeyCode = 10;

pub const KEY_0: KeyCode = 11;

pub const KEY_MINUS: KeyCode = 12;

pub const KEY_EQUAL: KeyCode = 13;

pub const KEY_BACKSPACE: KeyCode = 14;

pub const KEY_TAB: KeyCode = 15;

pub const KEY_Q: KeyCode = 16;

pub const KEY_W: KeyCode = 17;

pub const KEY_E: KeyCode = 18;

pub const KEY_R: KeyCode = 19;

pub const KEY_T: KeyCode = 20;

pub const KEY_Y: KeyCode = 21;

pub const KEY_U: KeyCode = 22;

pub const KEY_I: KeyCode = 23;

pub const KEY_O: KeyCode = 24;

pub const KEY_P: KeyCode = 25;

pub const KEY_LEFTBRACE: KeyCode = 26;

pub const KEY_RIGHTBRACE: KeyCode = 27;

pub const KEY_ENTER: KeyCode = 28;

pub const KEY_LEFTCTRL: KeyCode = 29;

pub const KEY_A: KeyCode = 30;

pub const KEY_S: KeyCode = 31;

pub const KEY_D: KeyCode = 32;

pub const KEY_F: KeyCode = 33;

pub const KEY_G: KeyCode = 34;

pub const KEY_H: KeyCode = 35;

pub const KEY_J: KeyCode = 36;

pub const KEY_K: KeyCode = 37;

pub const KEY_L: KeyCode = 38;

pub const KEY_SEMICOLON: KeyCode = 39;

pub const KEY_APOSTROPHE: KeyCode = 40;

pub const KEY_GRAVE: KeyCode = 41;

pub const KEY_LEFTSHIFT: KeyCode = 42;

pub const KEY_BACKSLASH: KeyCode = 43;

pub const KEY_Z: KeyCode = 44;

pub const KEY_X: KeyCode = 45;

pub const KEY_C: KeyCode = 46;

pub const KEY_V: KeyCode = 47;

pub const KEY_B: KeyCode = 48;

pub const KEY_N: KeyCode = 49;

pub const KEY_M: KeyCode = 50;

pub const KEY_COMMA: KeyCode = 51;

pub const KEY_DOT: KeyCode = 52;

pub const KEY_SLASH: KeyCode = 53;

pub const KEY_RIGHTSHIFT: KeyCode = 54;

pub const KEY_KPASTERISK: KeyCode = 55;

pub const KEY_LEFTALT: KeyCode = 56;

pub const KEY_SPACE: KeyCode = 57;

pub const KEY_CAPSLOCK: KeyCode = 58;

pub const KEY_F1: KeyCode = 59;

pub const KEY_F2: KeyCode = 60;

pub const KEY_F3: KeyCode = 61;

pub const KEY_F4: KeyCode = 62;

pub const KEY_F5: KeyCode = 63;

pub const KEY_F6: KeyCode = 64;

pub const KEY_F7: KeyCode = 65;

pub const KEY_F8: KeyCode = 66;

pub const KEY_F9: KeyCode = 67;

pub const KEY_F10: KeyCode = 68;

pub const KEY_NUMLOCK: KeyCode = 69;

pub const KEY_SCROLLLOCK: KeyCode = 70;

pub const KEY_KP7: KeyCode = 71;

pub const KEY_KP8: KeyCode = 72;

pub const KEY_KP9: KeyCode = 73;

pub const KEY_KPMINUS: KeyCode = 74;

pub const KEY_KP4: KeyCode = 75;

pub const KEY_KP5: KeyCode = 76;

pub const KEY_KP6: KeyCode = 77;

pub const KEY_KPPLUS: KeyCode = 78;

pub const KEY_KP1: KeyCode = 79;

pub const KEY_KP2: KeyCode = 80;

pub const KEY_KP3: KeyCode = 81;

pub const KEY_KP0: KeyCode = 82;

pub const KEY_KPDOT: KeyCode = 83;

pub const KEY_F11: KeyCode = 87;

pub const KEY_F12: KeyCode = 88;

pub const KEY_KPENTER: KeyCode = 96;

pub const KEY_RIGHTCTRL: KeyCode = 97;

pub const KEY_KPSLASH: KeyCode = 98;

pub const KEY_SYSRQ: KeyCode = 99;

pub const KEY_RIGHTALT: KeyCode = 100;

pub const KEY_HOME: KeyCode = 102;

pub const KEY_UP: KeyCode = 103;

pub const KEY_PAGEUP: KeyCode = 104;

pub const KEY_LEFT: KeyCode = 105;

pub const KEY_RIGHT: KeyCode = 106;

pub const KEY_END: KeyCode = 107;

pub const KEY_DOWN: KeyCode = 108;

pub const KEY_PAGEDOWN: KeyCode = 109;

pub const KEY_INSERT: KeyCode = 110;

pub const KEY_DELETE: KeyCode = 111;

pub const KEY_MUTE: KeyCode = 113;

pub const KEY_VOLUMEDOWN: KeyCode = 114;

pub const KEY_VOLUMEUP: KeyCode = 115;

pub const KEY_KPEQUAL: KeyCode = 117;

pub const KEY_PAUSE: KeyCode = 119;

pub const KEY_KPCOMMA: KeyCode = 121;

pub const KEY_LEFTMETA: KeyCode = 125;

pub const KEY_RIGHTMETA: KeyCode = 126;

pub const KEY_SLEEP: KeyCode = 142;

pub const KEY_WAKEUP: KeyCode = 143;

/// Value of a key event that reports a release.
pub const VALUE_RELEASE: i32 = 0;

/// Value of a key event that reports the initial press.
pub const VALUE_PRESS: i32 = 1;

/// Value of a key event that reports an auto-repeat of a held key.
pub const VALUE_REPEAT: i32 = 2;

/// Type of the events that carry a key and a value.
pub const EV_KEY: u16 = 1;

/// Whether a keystroke of `key` types a character: the digit row through
/// the equals key, the three letter rows with the punctuation that ends
/// each, and the space key. Backspace, tab, enter and the modifiers, whose
/// scancodes lie between those rows, do not.
pub open spec fn printable(key: KeyCode) -> bool {
    ||| KEY_1 <= key <= KEY_EQUAL
    ||| KEY_Q <= key <= KEY_RIGHTBRACE
    ||| KEY_A <= key <= KEY_GRAVE
    ||| KEY_BACKSLASH <= key <= KEY_SLASH
    ||| key == KEY_SPACE
}

/// Whether `key` ends the text being typed: enter, keypad enter, escape, tab.
pub open spec fn reset_key(key: KeyCode) -> bool {
    key == KEY_ENTER || key == KEY_KPENTER || key == KEY_ESC || key == KEY_TAB
}

/// Whether `key` is one of the two shift keys.
pub open spec fn shift_key(key: KeyCode) -> bool {
    key == KEY_LEFTSHIFT || key == KEY_RIGHTSHIFT
}

/// Whether `key` is one of the two control keys, the reset-modifier.
pub open spec fn ctrl_key(key: KeyCode) -> bool {
    key == KEY_LEFTCTRL || key == KEY_RIGHTCTRL
}

/// Tells whether a keystroke of `key` is recorded in the typed-text buffer.
pub fn is_printable(key: KeyCode) -> (b: bool)
    ensures
        b == printable(key),
{
    (key >= KEY_1 && key <= KEY_EQUAL) || (key >= KEY_Q && key <= KEY_RIGHTBRACE) || (key >= KEY_A
        && key <= KEY_GRAVE) || (key >= KEY_BACKSLASH && key <= KEY_SLASH) || key == KEY_SPACE
}

/// Tells whether `key` is a reset key.
pub fn is_reset_key(key: KeyCode) -> (b: bool)
    ensures
        b == reset_key(key),
{
    key == KEY_ENTER || key == KEY_KPENTER || key == KEY_ESC || key == KEY_TAB
}

/// Tells whether `key` is a shift key.
pub fn is_shift_key(key: KeyCode) -> (b: bool)
    ensures
        b == shift_key(key),
{
    key == KEY_LEFTSHIFT || key == KEY_RIGHTSHIFT
}

/// Tells whether `key` is a control key.
pub fn is_ctrl_key(key: KeyCode) -> (b: bool)
    ensures
        b == ctrl_key(key),
{
    key == KEY_LEFTCTRL || key == KEY_RIGHTCTRL
}

/// Whether `key` is one of the keys that can serve as the trigger.
pub open spec fn trigger_key(key: KeyCode) -> bool {
    key == KEY_PAUSE || key == KEY_F12 || key == KEY_CAPSLOCK
}

/// The key that a configured trigger name stands for. Two names besides
/// `KEY_PAUSE` are known; every other name falls back to the pause key.
pub open spec fn trigger_for(name: Seq<char>) -> KeyCode {
    if name == "KEY_F12"@ {
        KEY_F12
    } else if name == "KEY_CAPSLOCK"@ {
        KEY_CAPSLOCK
    } else {
        KEY_PAUSE
    }
}

/// Reads the name of a trigger key. The result is always `Some`: a name that
/// is not known yields the pause key.
pub fn parse_evdev_key(s: &str) -> (r: Option<KeyCode>)
    ensures
        r == Some(trigger_for(s@)),
        trigger_key(trigger_for(s@)),
{
    if str_equal(s, "KEY_F12") {
        Some(KEY_F12)
    } else if str_equal(s, "KEY_CAPSLOCK") {
        Some(KEY_CAPSLOCK)
    } else {
        Some(KEY_PAUSE)
    }
}

/// No key is both printable and a reset key: which of the two is asked
/// first makes no difference.
pub proof fn lemma_printable_and_reset_are_disjoint(key: KeyCode)
    ensures
        !(printable(key) && reset_key(key)),
{
}

/// Neither a modifier nor backspace is printable.
pub proof fn lemma_modifiers_are_not_printable(key: KeyCode)
    requires
        shift_key(key) || ctrl_key(key) || key == KEY_BACKSPACE || key == KEY_LEFTALT || key
            == KEY_RIGHTALT || key == KEY_LEFTMETA || key == KEY_RIGHTMETA,
    ensures
        !printable(key),
{
}

/// Every letter and every digit is printable.
pub proof fn lemma_letters_and_digits_are_printable(key: KeyCode)
    requires
        KEY_1 <= key <= KEY_0 || KEY_Q <= key <= KEY_P || KEY_A <= key <= KEY_L || KEY_Z <= key
            <= KEY_M,
    ensures
        printable(key),
{
}

/// A trigger key is neither printable nor a reset key, nor the select-all
/// key.
pub proof fn lemma_trigger_keys_stand_apart(key: KeyCode)
    requires
        trigger_key(key),
    ensures
        !printable(key),
        !reset_key(key),
        key != KEY_A,
{
}

} // verus!
