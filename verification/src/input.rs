//! What the host reports: keys, buttons and the events of its loop.

use vstd::prelude::*;
use crate::direction::Direction;

verus! {

/// A key of the keyboard, as far as the game tells keys apart.
#[derive(Clone, Copy, PartialEq, Eq, Debug, Structural)]
pub enum Key {
    Up,
    Down,
    Left,
    Right,
    /// Any key that is not an arrow key.
    Other,
}

/// A button of an input device.
#[derive(Clone, Copy, PartialEq, Eq, Debug, Structural)]
pub enum Button {
    Keyboard(Key),
    /// A button of any device but the keyboard.
    Other,
}

/// Whether a button went down or came up.
#[derive(Clone, Copy, PartialEq, Eq, Debug, Structural)]
pub enum ButtonState {
    Press,
    Release,
}

/// A change of a button's state.
#[derive(Clone, Copy, PartialEq, Eq, Debug, Structural)]
pub struct ButtonArgs {
    pub state: ButtonState,
    pub button: Button,
}

/// An event of the host's loop.
#[derive(Clone, Copy, PartialEq, Eq, Debug, Structural)]
pub enum Event {
    /// The window is to be drawn.
    Render,
    /// A tick of the game clock.
    Update,
    /// A button changed its state.
    Button(ButtonArgs),
    /// Anything else; the game takes no notice.
    Other,
}

impl Key {
    /// The heading an arrow key asks for; no other key asks for one.
    pub open spec fn spec_direction(self) -> Option<Direction> {
        match self {
            Key::Up => Some(Direction::Up),
            Key::Down => Some(Direction::Down),
            Key::Left => Some(Direction::Left),
            Key::Right => Some(Direction::Right),
            Key::Other => None,
        }
    }

    /// The heading an arrow key asks for; no other key asks for one.
    #[verifier::when_used_as_spec(spec_direction)]
    pub fn direction(self) -> (d: Option<Direction>)
        ensures
            d == self.spec_direction(),
    {
        match self {
            Key::Up => Some(Direction::Up),
            Key::Down => Some(Direction::Down),
            Key::Left => Some(Direction::Left),
            Key::Right => Some(Direction::Right),
            Key::Other => None,
        }
    }
}

impl Button {
    /// The heading a button asks for: that of its key, if it is a key of the
    /// keyboard.
    pub open spec fn spec_direction(self) -> Option<Direction> {
        match self {
            Button::Keyboard(key) => key.spec_direction(),
            Button::Other => None,
        }
    }

    /// The heading a button asks for: that of its key, if it is a key of the
    /// keyboard.
    #[verifier::when_used_as_spec(spec_direction)]
    pub fn direction(self) -> (d: Option<Direction>)
        ensures
            d == self.spec_direction(),
    {
        match self {
            Button::Keyboard(key) => key.direction(),
            Button::Other => None,
        }
    }
}

} // verus!
