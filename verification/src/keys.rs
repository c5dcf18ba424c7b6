//! Keys as the terminal reports them.

use crate::textarea::{Input, Key};
use crate::vim::no_input;
use vstd::prelude::*;

verus! {

#[derive(Debug, Clone, Copy, PartialEq, Eq, Structural)]
pub enum KeyCode {
    Char(char),
    F(u8),
    Backspace,
    Enter,
    Left,
    Right,
    Up,
    Down,
    Tab,
    BackTab,
    Delete,
    Home,
    End,
    PageUp,
    PageDown,
    Esc,
    Other,
}

/// A key that was pressed or let go, with the modifiers held down.
#[derive(Debug, Clone, Copy, PartialEq, Eq, Structural)]
pub struct KeyPress {
    pub code: KeyCode,
    pub ctrl: bool,
    pub alt: bool,
    pub shift: bool,
    /// The key was let go, which some terminals report too.
    pub released: bool,
}

/// What the terminal reports: a key, or something else.
#[derive(Debug, Clone, Copy, PartialEq, Eq, Structural)]
pub enum Event {
    Key(KeyPress),
    Other,
}

/// The key of a text area that a key code stands for.
pub open spec fn area_key(code: KeyCode) -> Key {
    match code {
        KeyCode::Char(c) => Key::Char(c),
        KeyCode::F(n) => Key::F(n),
        KeyCode::Backspace => Key::Backspace,
        KeyCode::Enter => Key::Enter,
        KeyCode::Left => Key::Left,
        KeyCode::Right => Key::Right,
        KeyCode::Up => Key::Up,
        KeyCode::Down => Key::Down,
        KeyCode::Tab => Key::Tab,
        KeyCode::Delete => Key::Delete,
        KeyCode::Home => Key::Home,
        KeyCode::End => Key::End,
        KeyCode::PageUp => Key::PageUp,
        KeyCode::PageDown => Key::PageDown,
        KeyCode::Esc => Key::Esc,
        KeyCode::BackTab | KeyCode::Other => Key::Null,
    }
}

impl KeyPress {
    pub open spec fn spec_input(self) -> Input {
        if self.released {
            no_input()
        } else {
            Input { key: area_key(self.code), ctrl: self.ctrl, alt: self.alt, shift: self.shift }
        }
    }

    /// The key as an input to a text area. One that was let go is no input, and
    /// keys that a text area does not know are null.
    #[verifier::when_used_as_spec(spec_input)]
    pub fn input(self) -> (input: Input)
        ensures
            input == self.input(),
    {
        if self.released {
            return Input::default();
        }
        let key = match self.code {
            KeyCode::Char(c) => Key::Char(c),
            KeyCode::F(n) => Key::F(n),
            KeyCode::Backspace => Key::Backspace,
            KeyCode::Enter => Key::Enter,
            KeyCode::Left => Key::Left,
            KeyCode::Right => Key::Right,
            KeyCode::Up => Key::Up,
            KeyCode::Down => Key::Down,
            KeyCode::Tab => Key::Tab,
            KeyCode::Delete => Key::Delete,
            KeyCode::Home => Key::Home,
            KeyCode::End => Key::End,
            KeyCode::PageUp => Key::PageUp,
            KeyCode::PageDown => Key::PageDown,
            KeyCode::Esc => Key::Esc,
            KeyCode::BackTab | KeyCode::Other => Key::Null,
        };
        Input { key, ctrl: self.ctrl, alt: self.alt, shift: self.shift }
    }

    /// Control held with a character key.
    #[verifier::allow_in_spec]
    pub fn is_ctrl(self, c: char) -> bool
        returns
            self.ctrl && self.code == KeyCode::Char(c),
    {
        self.ctrl && self.code == KeyCode::Char(c)
    }
}

} // verus!
