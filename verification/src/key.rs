//! Key events as the dispatcher receives them.

use vstd::prelude::*;

verus! {

/// A key as a terminal reports it.
#[derive(Clone, Copy, Debug, PartialEq, Eq, Structural)]
pub enum Key {
    /// A character key.
    Char(char),
    /// A function key.
    F(u8),
    Backspace,
    Enter,
    Left,
    Right,
    Up,
    Down,
    Tab,
    Delete,
    Home,
    End,
    PageUp,
    PageDown,
    Esc,
    /// The mouse wheel turned down.
    MouseScrollDown,
    /// The mouse wheel turned up.
    MouseScrollUp,
    /// No key: an event that carries none.
    Null,
}

/// One key event: the key and the modifiers held with it.
#[derive(Clone, Copy, Debug, PartialEq, Eq, Structural)]
pub struct Input {
    pub key: Key,
    pub ctrl: bool,
    pub alt: bool,
    pub shift: bool,
}

impl Input {
    /// The bare key, no modifier held.
    pub fn plain(key: Key) -> (input: Input)
        ensures
            input == (Input { key, ctrl: false, alt: false, shift: false }),
    {
        Input { key, ctrl: false, alt: false, shift: false }
    }

    /// The character key `c`, no modifier held.
    pub fn char(c: char) -> (input: Input)
        ensures
            input == (Input { key: Key::Char(c), ctrl: false, alt: false, shift: false }),
    {
        Input { key: Key::Char(c), ctrl: false, alt: false, shift: false }
    }
}

} // verus!
