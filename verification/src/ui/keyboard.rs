//! Keyboard events, reduced to what the components react to.
use vstd::prelude::*;

verus! {

/// A key of the keyboard.
#[derive(Debug, Clone, Copy, PartialEq, Eq, Structural)]
pub enum Key {
    /// A key that types a character: the first character it types.
    Character(char),
    ArrowRight,
    ArrowLeft,
    Space,
    Tab,
    Enter,
    Escape,
    /// Any other key.
    Other,
}

/// The modifiers held during a keyboard event. `command` is the platform's
/// command modifier (Control, or the logo key on macOS); `other` tells whether
/// any further modifier is held.
#[derive(Debug, Clone, Copy, PartialEq, Eq, Structural)]
pub struct Modifiers {
    pub shift: bool,
    pub command: bool,
    pub other: bool,
}

impl Modifiers {
    /// No modifier held.
    pub open spec fn is_none(self) -> bool {
        !self.shift && !self.command && !self.other
    }

    /// Shift alone.
    pub open spec fn is_shift(self) -> bool {
        self.shift && !self.command && !self.other
    }

    /// Command alone.
    pub open spec fn is_command(self) -> bool {
        !self.shift && self.command && !self.other
    }

    /// Shift and command, nothing else.
    pub open spec fn is_shift_command(self) -> bool {
        self.shift && self.command && !self.other
    }
}

/// A keyboard event.
#[derive(Debug, Clone, Copy, PartialEq, Eq, Structural)]
pub enum KeyboardEvent {
    KeyPressed { key: Key, modifiers: Modifiers, repeat: bool },
    KeyReleased { key: Key, modifiers: Modifiers },
    /// Any other keyboard event (such as a change of modifiers).
    Other,
}

} // verus!
