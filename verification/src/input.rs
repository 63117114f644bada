//! Key presses as the library sees them: already decoded, as plain values.

use vstd::prelude::*;

verus! {

/// The key that was pressed.
#[derive(Clone, Copy, Debug, PartialEq, Eq, Structural)]
pub enum Key {
    Left,
    Right,
    Up,
    Down,
    Enter,
    Esc,
    /// A character key, as typed.
    Char(char),
    /// A function key, by its number.
    F(u8),
    /// Any key the library has no use for.
    Other,
}

/// A key press: the key, and whether it was pressed with the control key,
/// and no other modifier, held down.
#[derive(Clone, Copy, Debug, PartialEq, Eq, Structural)]
pub struct KeyPress {
    pub key: Key,
    pub control: bool,
}

impl Key {
    /// Whether the key is the letter `lower`, in either case. `upper` is
    /// the same letter as a capital.
    pub open spec fn is_letter(self, lower: char, upper: char) -> bool {
        self == Key::Char(lower) || self == Key::Char(upper)
    }

    /// Whether the key toggles the hint: `h` or `H`.
    pub open spec fn is_hint(self) -> bool {
        self.is_letter('h', 'H')
    }

    /// Whether the key skips the round: `s` or `S`.
    pub open spec fn is_skip(self) -> bool {
        self.is_letter('s', 'S')
    }

    /// Whether the key is `c` or `C`, which quits when held with control.
    pub open spec fn is_quit_letter(self) -> bool {
        self.is_letter('c', 'C')
    }

    /// Whether the key is the letter `lower` or its capital `upper`.
    pub fn letter(&self, lower: char, upper: char) -> (is: bool)
        ensures
            is == self.is_letter(lower, upper),
    {
        match self {
            Key::Char(c) => *c == lower || *c == upper,
            _ => false,
        }
    }
}

impl KeyPress {
    /// A key pressed without any modifier.
    pub fn plain(key: Key) -> (press: KeyPress)
        ensures
            press == (KeyPress { key, control: false }),
    {
        KeyPress { key, control: false }
    }

    /// Whether the press asks to quit: control with `c` or `C`.
    pub open spec fn is_quit(self) -> bool {
        self.control && self.key.is_quit_letter()
    }

    /// Whether the press asks to quit: control with `c` or `C`.
    pub fn quits(&self) -> (quit: bool)
        ensures
            quit == self.is_quit(),
    {
        self.control && self.key.letter('c', 'C')
    }
}

} // verus!
