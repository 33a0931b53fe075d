//! Strongly-typed keyboard keys; platform backends map `Key` to their codes.

use vstd::prelude::*;

verus! {

/// Modifier keys usable in combinations.
#[derive(Debug, Clone, Copy, PartialEq, Eq, Hash, Structural)]
pub enum Modifier {
    Ctrl,
    Shift,
    Alt,
}

/// A physical key or modifier usable in actions.
#[derive(Debug, Clone, Copy, PartialEq, Eq, Hash, Structural)]
pub enum Key {
    Enter,
    Escape,
    Tab,
    Space,
    Backspace,
    Delete,
    Home,
    End,
    PageUp,
    PageDown,
    Up,
    Down,
    Left,
    Right,
    Ctrl,
    Shift,
    Alt,
    Letter(char),
    Digit(u8),
    Function(u8),
}

impl Key {
    /// A key of its own (not a letter, digit or function key, which carry a
    /// value).
    pub open spec fn is_named(self) -> bool {
        !(self is Letter || self is Digit || self is Function)
    }

    /// The modifier a key stands for, when it is one.
    pub open spec fn modifier_of(self) -> Option<Modifier> {
        match self {
            Key::Ctrl => Some(Modifier::Ctrl),
            Key::Shift => Some(Modifier::Shift),
            Key::Alt => Some(Modifier::Alt),
            _ => None,
        }
    }

    /// The modifier this key stands for (Ctrl, Shift, Alt), if any.
    pub fn as_modifier(&self) -> (r: Option<Modifier>)
        ensures
            r == self.modifier_of(),
    {
        match self {
            Key::Ctrl => Some(Modifier::Ctrl),
            Key::Shift => Some(Modifier::Shift),
            Key::Alt => Some(Modifier::Alt),
            _ => None,
        }
    }
}

} // verus!
