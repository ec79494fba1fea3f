//! Key events as the editor reads them.
use vstd::prelude::*;

verus! {

/// Which key was pressed.
#[derive(Debug, Clone, Copy, PartialEq, Eq, Structural)]
pub enum KeyCode {
    Backspace,
    Enter,
    Left,
    Right,
    Up,
    Down,
    Esc,
    Tab,
    /// No key: what the editor remembers before the first key arrives.
    Null,
    /// A character key.
    Char(char),
    /// Any key that the editor has no use for.
    Other,
}

/// The modifier keys held down with a key, one bit each.
#[derive(Debug, Clone, Copy, PartialEq, Eq, Structural)]
pub struct KeyModifiers {
    pub bits: u8,
}

impl KeyModifiers {
    /// No modifier is held.
    pub open spec fn is_none(self) -> bool {
        self.bits == 0
    }

    /// The empty set of modifiers.
    pub fn none() -> (m: KeyModifiers)
        ensures
            m.is_none(),
    {
        KeyModifiers { bits: 0 }
    }
}

/// One key press.
#[derive(Debug, Clone, Copy, PartialEq, Eq, Structural)]
pub struct KeyEvent {
    pub code: KeyCode,
    pub modifiers: KeyModifiers,
}

impl KeyEvent {
    /// The key `code` with no modifier held.
    pub fn new(code: KeyCode) -> (k: KeyEvent)
        ensures
            k.code == code,
            k.modifiers.is_none(),
    {
        KeyEvent { code, modifiers: KeyModifiers { bits: 0 } }
    }

    /// The character key `c` with no modifier held.
    pub fn char(c: char) -> (k: KeyEvent)
        ensures
            k.code == KeyCode::Char(c),
            k.modifiers.is_none(),
    {
        KeyEvent { code: KeyCode::Char(c), modifiers: KeyModifiers { bits: 0 } }
    }
}

} // verus!
