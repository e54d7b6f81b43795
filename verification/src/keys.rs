//! Logical key identities and modifier sets, the plain-data form of a key
//! event that the dispatch table is searched with.

use vstd::prelude::*;

verus! {

/// A logical key identity: a character, a function key, or a named key.
#[derive(Clone, Copy, Debug, PartialEq, Eq, Structural)]
pub enum Key {
    Char(char),
    F(u8),
    Enter,
    Left,
    Right,
    Up,
    Down,
    Tab,
    Delete,
    Insert,
    Esc,
    /// Any key the dashboard does not distinguish further.
    Other,
}

/// The set of modifier keys held down with a key.
#[derive(Clone, Copy, Debug, PartialEq, Eq, Structural)]
pub struct Modifiers {
    pub control: bool,
    pub shift: bool,
    pub alt: bool,
}

impl Modifiers {
    /// No modifier held.
    pub fn none() -> (r: Modifiers)
        ensures
            r == (Modifiers { control: false, shift: false, alt: false }),
    {
        Modifiers { control: false, shift: false, alt: false }
    }

    /// Control alone.
    pub fn control() -> (r: Modifiers)
        ensures
            r == (Modifiers { control: true, shift: false, alt: false }),
    {
        Modifiers { control: true, shift: false, alt: false }
    }

    /// Shift alone.
    pub fn shift() -> (r: Modifiers)
        ensures
            r == (Modifiers { control: false, shift: true, alt: false }),
    {
        Modifiers { control: false, shift: true, alt: false }
    }
}

/// A key event as the dispatch resolver sees it.
#[derive(Clone, Copy, Debug, PartialEq, Eq, Structural)]
pub struct KeyEvent {
    pub modifiers: Modifiers,
    pub code: Key,
}

} // verus!
