//! Keys as the terminal reports them, and what each one asks for.

use crate::cursor::Direction;
use vstd::prelude::*;

verus! {

/// The key of a key press, as far as the viewer tells keys apart.
#[derive(Clone, Copy, Debug, PartialEq, Eq, Structural)]
pub enum KeyCode {
    /// A character key.
    Char(char),
    Up,
    Down,
    Left,
    Right,
    Home,
    End,
    PageUp,
    PageDown,
    /// Any other key.
    Other,
}

/// The modifier keys held down during a key press.
#[derive(Clone, Copy, Debug, PartialEq, Eq, Structural)]
pub struct KeyModifiers {
    pub shift: bool,
    pub control: bool,
    pub alt: bool,
}

impl KeyModifiers {
    /// No modifier key is held down.
    pub open spec fn is_none(self) -> bool {
        !self.shift && !self.control && !self.alt
    }

    /// The control key is held down, and no other modifier key.
    pub open spec fn is_control(self) -> bool {
        !self.shift && self.control && !self.alt
    }

    /// No modifier key.
    pub fn none() -> (modifiers: KeyModifiers)
        ensures
            modifiers.is_none(),
    {
        KeyModifiers { shift: false, control: false, alt: false }
    }

    /// The control key alone.
    pub fn control() -> (modifiers: KeyModifiers)
        ensures
            modifiers.is_control(),
    {
        KeyModifiers { shift: false, control: true, alt: false }
    }
}

/// One key press.
#[derive(Clone, Copy, Debug, PartialEq, Eq, Structural)]
pub struct KeyEvent {
    pub code: KeyCode,
    pub modifiers: KeyModifiers,
}

impl KeyEvent {
    /// The press of `code` with `modifiers` held down.
    pub fn new(code: KeyCode, modifiers: KeyModifiers) -> (event: KeyEvent)
        ensures
            event == (KeyEvent { code, modifiers }),
    {
        KeyEvent { code, modifiers }
    }
}

/// The press of `code` with no modifier key held down.
pub open spec fn plain_key(code: KeyCode) -> KeyEvent {
    KeyEvent { code, modifiers: KeyModifiers { shift: false, control: false, alt: false } }
}

/// What a key press asks the viewer to do.
#[derive(Clone, Copy, Debug, PartialEq, Eq, Structural)]
pub enum Intent {
    /// End the session.
    Quit,
    /// Move the cursor one step.
    Move(Direction),
    /// Move the cursor the given number of steps in one direction.
    MoveRepeated(Direction, usize),
    /// Nothing.
    Noop,
}

/// What the key press `event` asks for in a window of `window_rows` rows:
/// control with `q` ends the session; an arrow key, Home or End without a
/// modifier moves the cursor one step; PageUp or PageDown without a modifier
/// moves it up or down by the window's number of rows; any other key press
/// asks for nothing.
pub open spec fn key_intent(event: KeyEvent, window_rows: usize) -> Intent {
    if event.code == KeyCode::Char('q') && event.modifiers.is_control() {
        Intent::Quit
    } else if event.modifiers.is_none() {
        match event.code {
            KeyCode::Up => Intent::Move(Direction::Up),
            KeyCode::Down => Intent::Move(Direction::Down),
            KeyCode::Left => Intent::Move(Direction::Left),
            KeyCode::Right => Intent::Move(Direction::Right),
            KeyCode::Home => Intent::Move(Direction::Home),
            KeyCode::End => Intent::Move(Direction::End),
            KeyCode::PageUp => Intent::MoveRepeated(Direction::Up, window_rows),
            KeyCode::PageDown => Intent::MoveRepeated(Direction::Down, window_rows),
            _ => Intent::Noop,
        }
    } else {
        Intent::Noop
    }
}

/// Classifies a key press.
pub fn intent_of_key(event: KeyEvent, window_rows: usize) -> (intent: Intent)
    ensures
        intent == key_intent(event, window_rows),
{
    let plain = !event.modifiers.shift && !event.modifiers.control && !event.modifiers.alt;
    let control = !event.modifiers.shift && event.modifiers.control && !event.modifiers.alt;
    match event.code {
        KeyCode::Char(c) => {
            if c == 'q' && control {
                Intent::Quit
            } else {
                Intent::Noop
            }
        },
        KeyCode::Up => if plain { Intent::Move(Direction::Up) } else { Intent::Noop },
        KeyCode::Down => if plain { Intent::Move(Direction::Down) } else { Intent::Noop },
        KeyCode::Left => if plain { Intent::Move(Direction::Left) } else { Intent::Noop },
        KeyCode::Right => if plain { Intent::Move(Direction::Right) } else { Intent::Noop },
        KeyCode::Home => if plain { Intent::Move(Direction::Home) } else { Intent::Noop },
        KeyCode::End => if plain { Intent::Move(Direction::End) } else { Intent::Noop },
        KeyCode::PageUp => if plain {
            Intent::MoveRepeated(Direction::Up, window_rows)
        } else {
            Intent::Noop
        },
        KeyCode::PageDown => if plain {
            Intent::MoveRepeated(Direction::Down, window_rows)
        } else {
            Intent::Noop
        },
        KeyCode::Other => Intent::Noop,
    }
}

} // verus!
