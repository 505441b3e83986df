//! Decoding raw key codes into logical user actions.
//!
//! The decoder is total: every key code maps to exactly one action, with
//! `Unhandled` standing for "not a key of ours". Letter keys carry the
//! lower-case letter they produce, digit keys the digit.

use vstd::prelude::*;

verus! {

#[derive(Clone, Copy, Debug, PartialEq, Eq, Structural)]
pub enum Navigation {
    Up,
    Down,
    Left,
    Right,
}

/// The function keys used for forced-form conversion (F6 through F10).
#[derive(Clone, Copy, Debug, PartialEq, Eq, Structural)]
pub enum Function {
    Six,
    Seven,
    Eight,
    Nine,
    Ten,
}

#[derive(Clone, Copy, Debug, PartialEq, Eq, Structural)]
pub enum UserAction {
    Input(char),
    Number(char),
    Backspace,
    Enter,
    Escape,
    Space,
    Tab,
    Navigation(Navigation),
    Function(Function),
    ToggleInputMode,
    Unhandled,
}

/// The action produced by one virtual-key code.
pub open spec fn decode_key(code: usize) -> UserAction {
    if 0x41 <= code && code <= 0x5a {  // letter keys, as lower case
        UserAction::Input((((code + 0x20) as u8) as char))
    } else if 0x30 <= code && code <= 0x39 {  // digit keys
        UserAction::Number(((code as u8) as char))
    } else if code == 0xbc {
        UserAction::Input(',')
    } else if code == 0xbd {
        UserAction::Input('-')
    } else if code == 0xbe {
        UserAction::Input('.')
    } else if code == 0x08 {
        UserAction::Backspace
    } else if code == 0x0d {
        UserAction::Enter
    } else if code == 0x1b {
        UserAction::Escape
    } else if code == 0x20 {
        UserAction::Space
    } else if code == 0x09 {
        UserAction::Tab
    } else if code == 0x25 {
        UserAction::Navigation(Navigation::Left)
    } else if code == 0x26 {
        UserAction::Navigation(Navigation::Up)
    } else if code == 0x27 {
        UserAction::Navigation(Navigation::Right)
    } else if code == 0x28 {
        UserAction::Navigation(Navigation::Down)
    } else if code == 0x75 {
        UserAction::Function(Function::Six)
    } else if code == 0x76 {
        UserAction::Function(Function::Seven)
    } else if code == 0x77 {
        UserAction::Function(Function::Eight)
    } else if code == 0x78 {
        UserAction::Function(Function::Nine)
    } else if code == 0x79 {
        UserAction::Function(Function::Ten)
    } else if code == 0x19 || code == 0xf3 || code == 0xf4 {  // kanji / zenkaku keys
        UserAction::ToggleInputMode
    } else {
        UserAction::Unhandled
    }
}

impl UserAction {
    /// Decode one virtual-key code.
    pub fn from_key(code: usize) -> (r: UserAction)
        ensures
            r == decode_key(code),
    {
        if 0x41 <= code && code <= 0x5a {
            UserAction::Input(((code + 0x20) as u8) as char)
        } else if 0x30 <= code && code <= 0x39 {
            UserAction::Number((code as u8) as char)
        } else if code == 0xbc {
            UserAction::Input(',')
        } else if code == 0xbd {
            UserAction::Input('-')
        } else if code == 0xbe {
            UserAction::Input('.')
        } else if code == 0x08 {
            UserAction::Backspace
        } else if code == 0x0d {
            UserAction::Enter
        } else if code == 0x1b {
            UserAction::Escape
        } else if code == 0x20 {
            UserAction::Space
        } else if code == 0x09 {
            UserAction::Tab
        } else if code == 0x25 {
            UserAction::Navigation(Navigation::Left)
        } else if code == 0x26 {
            UserAction::Navigation(Navigation::Up)
        } else if code == 0x27 {
            UserAction::Navigation(Navigation::Right)
        } else if code == 0x28 {
            UserAction::Navigation(Navigation::Down)
        } else if code == 0x75 {
            UserAction::Function(Function::Six)
        } else if code == 0x76 {
            UserAction::Function(Function::Seven)
        } else if code == 0x77 {
            UserAction::Function(Function::Eight)
        } else if code == 0x78 {
            UserAction::Function(Function::Nine)
        } else if code == 0x79 {
            UserAction::Function(Function::Ten)
        } else if code == 0x19 || code == 0xf3 || code == 0xf4 {
            UserAction::ToggleInputMode
        } else {
            UserAction::Unhandled
        }
    }
}

} // verus!
