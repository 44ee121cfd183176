//! The state of a Snake game on an integer grid, with verified update rules.
//!
//! The crate holds the part of the game that decides: how the snake moves on
//! a tick, which turns are accepted, and what a frame shows. A host owns the
//! window, draws the frames and delivers the events.

pub mod direction;
pub mod game;
pub mod input;
pub mod scene;
pub mod snake;
pub mod state;

pub use direction::Direction;
pub use game::Game;
pub use input::{Button, ButtonArgs, ButtonState, Event, Key};
pub use scene::{Rgba, Scene, Square, CELL_SIZE};
pub use snake::Snake;
pub use state::SnakeState;
