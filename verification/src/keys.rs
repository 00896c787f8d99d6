//! Plain-data model of a key press: a key code plus the control, alt and
//! shift modifiers. Key events are produced by the event source and looked up
//! in the key-binding table.

use vstd::prelude::*;

verus! {

/// The key that was pressed.
#[derive(Clone, Copy, Debug, PartialEq, Eq, Structural)]
pub enum KeyCode {
    Esc,
    Enter,
    Left,
    Right,
    Up,
    Down,
    Home,
    End,
    PageUp,
    PageDown,
    BackTab,
    Backspace,
    Delete,
    Insert,
    F(u8),
    Char(char),
    Tab,
}

/// Modifier keys held together with a key press.
#[derive(Clone, Copy, Debug, PartialEq, Eq, Structural)]
pub struct KeyMods {
    pub ctrl: bool,
    pub alt: bool,
    pub shift: bool,
}

impl KeyMods {
    /// No modifier held.
    pub fn empty() -> (r: KeyMods)
        ensures
            r == (KeyMods { ctrl: false, alt: false, shift: false }),
    {
        KeyMods { ctrl: false, alt: false, shift: false }
    }
}

/// A key press: code plus modifiers.
#[derive(Clone, Copy, Debug, PartialEq, Eq, Structural)]
pub struct KeyEvent {
    pub code: KeyCode,
    pub mods: KeyMods,
}

impl KeyEvent {
    pub fn new(code: KeyCode, mods: KeyMods) -> (r: KeyEvent)
        ensures
            r == (KeyEvent { code, mods }),
    {
        KeyEvent { code, mods }
    }
}

} // verus!
