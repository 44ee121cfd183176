//! The game state as a mathematical value, its transitions, and what holds of them.

use vstd::prelude::*;
use crate::direction::Direction;
use crate::input::{Button, ButtonState, Event};

verus! {

/// What a snake is: the cells it occupies, head first, and its heading.
pub struct SnakeState {
    pub body: Seq<(int, int)>,
    pub direction: Direction,
}

impl SnakeState {
    /// A snake occupies at least one cell.
    pub open spec fn wf(self) -> bool {
        self.body.len() > 0
    }

    /// The cell of the head.
    pub open spec fn head(self) -> (int, int) {
        self.body[0]
    }

    /// The cell one unit step ahead of the head.
    pub open spec fn next_head(self) -> (int, int) {
        (
            self.head().0 + self.direction.spec_offset().0,
            self.head().1 + self.direction.spec_offset().1,
        )
    }

    /// Whether the cell ahead of the head has coordinates that fit `i32`, the
    /// type in which the game stores them.
    pub open spec fn can_advance(self) -> bool {
        &&& i32::MIN <= self.next_head().0 <= i32::MAX
        &&& i32::MIN <= self.next_head().1 <= i32::MAX
    }

    /// One tick: the head moves one cell ahead, every other segment takes the
    /// place of the one before it, and the cell of the tail is given up.
    pub open spec fn advance(self) -> SnakeState {
        SnakeState { body: seq![self.next_head()] + self.body.drop_last(), direction: self.direction }
    }

    /// Whether a requested heading is taken: any but the reverse of the
    /// present one.
    pub open spec fn accepts(self, requested: Direction) -> bool {
        requested != self.direction.spec_opposite()
    }

    /// A turn request: an accepted heading replaces the present one, a
    /// reversal changes nothing.
    pub open spec fn handle_input(self, requested: Direction) -> SnakeState {
        if self.accepts(requested) {
            SnakeState { body: self.body, direction: requested }
        } else {
            self
        }
    }

    /// A pressed button: an arrow key is a turn request for its heading, any
    /// other button changes nothing.
    pub open spec fn pressed(self, button: Button) -> SnakeState {
        match button.spec_direction() {
            Some(requested) => self.handle_input(requested),
            None => self,
        }
    }

    /// An event of the host's loop: a tick advances the snake, a button that
    /// goes down is a pressed button, and nothing else changes the state.
    pub open spec fn on_event(self, event: Event) -> SnakeState {
        match event {
            Event::Update => self.advance(),
            Event::Button(args) => if args.state == ButtonState::Press {
                self.pressed(args.button)
            } else {
                self
            },
            _ => self,
        }
    }
}

/// The reversal guard: a request for the reverse of the present heading
/// leaves the state as it is, and a request for any other heading makes that
/// heading the present one. Neither moves a cell.
pub proof fn lemma_reversal_guard(s: SnakeState, requested: Direction)
    ensures
        requested == s.direction.spec_opposite() ==> s.handle_input(requested) == s,
        requested != s.direction.spec_opposite() ==> s.handle_input(requested).direction
            == requested,
        s.handle_input(requested).body == s.body,
{
}

/// A turn request repeated is a turn request made once: the second of two
/// equal requests in a row changes nothing.
pub proof fn lemma_handle_input_idempotent(s: SnakeState, requested: Direction)
    ensures
        s.handle_input(requested).handle_input(requested) == s.handle_input(requested),
{
}

/// A tick keeps the length of the snake, so a snake stays a snake.
pub proof fn lemma_advance_keeps_length(s: SnakeState)
    requires
        s.wf(),
    ensures
        s.advance().body.len() == s.body.len(),
        s.advance().wf(),
{
}

/// A tick moves the head by exactly one cell along the axis of the heading
/// and leaves its other coordinate alone; each segment behind the head takes
/// the cell of the segment before it; the heading stays.
pub proof fn lemma_advance_moves_head(s: SnakeState)
    requires
        s.wf(),
    ensures
        s.advance().head() == match s.direction {
            Direction::Up => (s.head().0, s.head().1 - 1),
            Direction::Down => (s.head().0, s.head().1 + 1),
            Direction::Left => (s.head().0 - 1, s.head().1),
            Direction::Right => (s.head().0 + 1, s.head().1),
        },
        forall|i: int| 0 < i < s.body.len() ==> s.advance().body[i] == s.body[i - 1],
        s.advance().direction == s.direction,
{
}

/// A heading taken on a turn request is the heading of the next tick: the
/// head then moves one cell that way.
pub proof fn lemma_turn_then_advance(s: SnakeState, requested: Direction)
    requires
        s.wf(),
        s.accepts(requested),
    ensures
        s.handle_input(requested).advance().head() == (
            s.head().0 + requested.spec_offset().0,
            s.head().1 + requested.spec_offset().1,
        ),
{
}

} // verus!
