//! Key presses, as the front end's models take them.

use vstd::prelude::*;

verus! {

/// No modifier key is held.
pub const NONE: u8 = 0;

/// The shift key is held.
pub const SHIFT: u8 = 1;

/// The control key is held.
pub const CONTROL: u8 = 2;

/// The alt key is held.
pub const ALT: u8 = 4;

/// The key that was pressed.
#[derive(Clone, Copy, Debug, PartialEq, Eq, Structural)]
pub enum KeyCode {
    Backspace,
    Enter,
    Left,
    Right,
    Up,
    Down,
    Home,
    End,
    PageUp,
    PageDown,
    Tab,
    BackTab,
    Delete,
    Insert,
    /// A function key, by its number.
    F(u8),
    /// A character key.
    Char(char),
    Null,
    Esc,
}

/// A key press: the key, and the modifier keys held with it as a set of bits.
#[derive(Clone, Copy, Debug, PartialEq, Eq, Structural)]
pub struct KeyEvent {
    pub code: KeyCode,
    pub modifiers: u8,
}

impl KeyEvent {
    /// The press of `code` with `modifiers` held.
    pub fn new(code: KeyCode, modifiers: u8) -> (event: KeyEvent)
        ensures
            event == (KeyEvent { code, modifiers }),
    {
        KeyEvent { code, modifiers }
    }
}

} // verus!
