//! Key descriptors: which key was pressed, and with which modifiers.

use vstd::prelude::*;

verus! {

/// The key of a key press.
#[derive(Clone, Copy, Debug, PartialEq, Eq, Hash, Structural)]
pub enum KeyCode {
    Backspace,
    Enter,
    Left,
    Right,
    Up,
    Down,
    Home,
    End,
    PageUp,
    PageDown,
    Tab,
    BackTab,
    Delete,
    Insert,
    /// A function key, by its number.
    F(u8),
    /// A character key, by the character it produces.
    Char(char),
    Null,
    Esc,
}

/// A set of modifier keys, one bit for each: shift is bit 0, control bit 1,
/// alt bit 2.
#[derive(Clone, Copy, Debug, PartialEq, Eq, Hash, Structural)]
pub struct KeyModifiers {
    pub bits: u8,
}

impl KeyModifiers {
    /// The empty set, as a mathematical value.
    pub open spec fn spec_none() -> KeyModifiers {
        KeyModifiers { bits: 0 }
    }

    /// Shift alone, as a mathematical value.
    pub open spec fn spec_shift() -> KeyModifiers {
        KeyModifiers { bits: 1 }
    }

    /// Control alone, as a mathematical value.
    pub open spec fn spec_control() -> KeyModifiers {
        KeyModifiers { bits: 2 }
    }

    /// Alt alone, as a mathematical value.
    pub open spec fn spec_alt() -> KeyModifiers {
        KeyModifiers { bits: 4 }
    }

    /// No modifier.
    #[verifier::when_used_as_spec(spec_none)]
    pub fn none() -> (m: KeyModifiers)
        ensures
            m == KeyModifiers::spec_none(),
    {
        KeyModifiers { bits: 0 }
    }

    /// Shift alone.
    #[verifier::when_used_as_spec(spec_shift)]
    pub fn shift() -> (m: KeyModifiers)
        ensures
            m == KeyModifiers::spec_shift(),
    {
        KeyModifiers { bits: 1 }
    }

    /// Control alone.
    #[verifier::when_used_as_spec(spec_control)]
    pub fn control() -> (m: KeyModifiers)
        ensures
            m == KeyModifiers::spec_control(),
    {
        KeyModifiers { bits: 2 }
    }

    /// Alt alone.
    #[verifier::when_used_as_spec(spec_alt)]
    pub fn alt() -> (m: KeyModifiers)
        ensures
            m == KeyModifiers::spec_alt(),
    {
        KeyModifiers { bits: 4 }
    }

    /// The modifiers of both sets together.
    pub fn union(self, other: KeyModifiers) -> (m: KeyModifiers)
        ensures
            m.bits == self.bits | other.bits,
    {
        KeyModifiers { bits: self.bits | other.bits }
    }
}

/// A key press: a key and the modifiers held with it. Two key presses are
/// equal when both parts are.
#[derive(Clone, Copy, Debug, PartialEq, Eq, Hash, Structural)]
pub struct KeyEvent {
    pub code: KeyCode,
    pub modifiers: KeyModifiers,
}

impl KeyEvent {
    /// The press of `code` with `modifiers` held.
    pub fn new(code: KeyCode, modifiers: KeyModifiers) -> (key: KeyEvent)
        ensures
            key == (KeyEvent { code, modifiers }),
    {
        KeyEvent { code, modifiers }
    }
}

} // verus!
