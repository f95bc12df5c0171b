//! The logical input events that prompts react to.

use vstd::prelude::*;

verus! {

/// The modifier keys held down together with a key.
#[derive(Clone, Copy, Debug, PartialEq, Eq, Structural)]
pub struct KeyModifiers {
    pub shift: bool,
    pub control: bool,
    pub alt: bool,
}

impl KeyModifiers {
    /// No modifier key is held.
    pub open spec fn spec_none() -> KeyModifiers {
        KeyModifiers { shift: false, control: false, alt: false }
    }

    pub open spec fn spec_is_none(self) -> bool {
        !self.shift && !self.control && !self.alt
    }

    #[verifier::when_used_as_spec(spec_none)]
    pub fn none() -> (modifiers: KeyModifiers)
        ensures
            modifiers == Self::spec_none(),
    {
        KeyModifiers { shift: false, control: false, alt: false }
    }

    /// Only the control key is held.
    pub fn control() -> (modifiers: KeyModifiers)
        ensures
            modifiers == (KeyModifiers { shift: false, control: true, alt: false }),
    {
        KeyModifiers { shift: false, control: true, alt: false }
    }

    #[verifier::when_used_as_spec(spec_is_none)]
    pub fn is_none(self) -> (none: bool)
        ensures
            none == self.spec_is_none(),
            none == (self == Self::spec_none()),
    {
        !self.shift && !self.control && !self.alt
    }
}

/// A key as a keyboard backend reports it, before it is given a meaning.
#[derive(Clone, Copy, Debug, PartialEq, Eq, Structural)]
pub enum KeyCode {
    Enter,
    Esc,
    Backspace,
    Delete,
    Up,
    Down,
    Left,
    Right,
    Home,
    End,
    Tab,
    Char(char),
    Other,
}

/// A logical input event.
#[derive(Clone, Copy, Debug, PartialEq, Eq, Structural)]
pub enum Key {
    /// Commit the current input.
    Submit,
    /// Abort the prompt.
    Cancel,
    /// Delete backwards.
    Backspace,
    /// Delete forwards.
    Delete,
    Up,
    Down,
    Left,
    Right,
    Home,
    End,
    Tab,
    /// A character, with the modifiers it was typed with.
    Char(char, KeyModifiers),
    /// Any event that no prompt reacts to.
    Any,
}

impl Key {
    /// The meaning of a backend key: Enter submits, Esc and Ctrl-C cancel,
    /// editing and navigation keys map to themselves, characters keep their
    /// modifiers, and everything else is `Any`.
    pub open spec fn decoded(code: KeyCode, modifiers: KeyModifiers) -> Key {
        match code {
            KeyCode::Enter => Key::Submit,
            KeyCode::Esc => Key::Cancel,
            KeyCode::Backspace => Key::Backspace,
            KeyCode::Delete => Key::Delete,
            KeyCode::Up => Key::Up,
            KeyCode::Down => Key::Down,
            KeyCode::Left => Key::Left,
            KeyCode::Right => Key::Right,
            KeyCode::Home => Key::Home,
            KeyCode::End => Key::End,
            KeyCode::Tab => Key::Tab,
            KeyCode::Char(c) => if c == 'c' && modifiers.control && !modifiers.shift
                && !modifiers.alt {
                Key::Cancel
            } else {
                Key::Char(c, modifiers)
            },
            KeyCode::Other => Key::Any,
        }
    }

    /// Gives a backend key its meaning.
    pub fn decode(code: KeyCode, modifiers: KeyModifiers) -> (key: Key)
        ensures
            key == Self::decoded(code, modifiers),
    {
        match code {
            KeyCode::Enter => Key::Submit,
            KeyCode::Esc => Key::Cancel,
            KeyCode::Backspace => Key::Backspace,
            KeyCode::Delete => Key::Delete,
            KeyCode::Up => Key::Up,
            KeyCode::Down => Key::Down,
            KeyCode::Left => Key::Left,
            KeyCode::Right => Key::Right,
            KeyCode::Home => Key::Home,
            KeyCode::End => Key::End,
            KeyCode::Tab => Key::Tab,
            KeyCode::Char(c) => {
                if c == 'c' && modifiers.control && !modifiers.shift && !modifiers.alt {
                    Key::Cancel
                } else {
                    Key::Char(c, modifiers)
                }
            },
            KeyCode::Other => Key::Any,
        }
    }
}

} // verus!
