//! Key presses as the interface's handlers see them.

use vstd::prelude::*;

verus! {

/// Which key was pressed.
#[derive(Debug, Clone, Copy, PartialEq, Eq, Structural)]
pub enum Key {
    /// A key that types a character.
    Char(char),
    /// Enter.
    Enter,
    /// Escape.
    Esc,
    /// Tab.
    Tab,
    /// Shift+Tab.
    BackTab,
    /// Backspace.
    Backspace,
    /// Delete.
    Delete,
    /// Left arrow.
    Left,
    /// Right arrow.
    Right,
    /// Up arrow.
    Up,
    /// Down arrow.
    Down,
    /// Home.
    Home,
    /// End.
    End,
    /// Page Up.
    PageUp,
    /// Page Down.
    PageDown,
    /// Any other key.
    Other,
}

/// A key press with the modifiers held.
#[derive(Debug, Clone, Copy, PartialEq, Eq, Structural)]
pub struct KeyPress {
    /// The key.
    pub code: Key,
    /// Whether Control was held.
    pub ctrl: bool,
    /// Whether Alt was held.
    pub alt: bool,
    /// Whether Shift was held.
    pub shift: bool,
}

impl KeyPress {
    /// A press of `code` without modifiers.
    pub fn plain(code: Key) -> (r: Self)
        ensures
            r == (KeyPress { code, ctrl: false, alt: false, shift: false }),
    {
        KeyPress { code, ctrl: false, alt: false, shift: false }
    }

    /// A press of `code` with Control held.
    pub fn with_ctrl(code: Key) -> (r: Self)
        ensures
            r == (KeyPress { code, ctrl: true, alt: false, shift: false }),
    {
        KeyPress { code, ctrl: true, alt: false, shift: false }
    }

    /// A press of `code` with Shift held.
    pub fn with_shift(code: Key) -> (r: Self)
        ensures
            r == (KeyPress { code, ctrl: false, alt: false, shift: true }),
    {
        KeyPress { code, ctrl: false, alt: false, shift: true }
    }

    /// Whether no modifier was held.
    pub open spec fn unmodified(self) -> bool {
        !self.ctrl && !self.alt && !self.shift
    }

    /// Whether this is the character `c` typed with Control held.
    pub open spec fn is_ctrl_char(self, c: char) -> bool {
        self.ctrl && self.code == Key::Char(c)
    }
}

} // verus!
