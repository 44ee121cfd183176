//! The snake as the game holds it.

use std::collections::VecDeque;
use vstd::prelude::*;
use crate::direction::Direction;
use crate::scene::{squares_show, Square};
use crate::state::SnakeState;

verus! {

/// A snake on the grid: its cells, head first, and its heading.
///
/// The head is held apart from the segments behind it, so a snake without a
/// cell cannot be written down.
pub struct Snake {
    head: (i32, i32),
    tail: VecDeque<(i32, i32)>,
    direction: Direction,
}

/// A cell as a pair of mathematical integers.
pub open spec fn cell_of(cell: (i32, i32)) -> (int, int) {
    (cell.0 as int, cell.1 as int)
}

/// The cells of a body as pairs of mathematical integers, in the same order.
pub open spec fn cells_of(body: Seq<(i32, i32)>) -> Seq<(int, int)> {
    Seq::new(body.len(), |i: int| cell_of(body[i]))
}

impl View for Snake {
    type V = SnakeState;

    closed spec fn view(&self) -> SnakeState {
        SnakeState {
            body: cells_of(seq![self.head] + self.tail@),
            direction: self.direction,
        }
    }
}

impl Snake {
    /// Every snake occupies at least one cell.
    pub proof fn lemma_nonempty(&self)
        ensures
            self@.wf(),
    {
    }

    /// A snake with the given cells, head first, and the given heading.
    /// There is no snake without a cell: an empty body gives `None`.
    pub fn new(body: Vec<(i32, i32)>, direction: Direction) -> (snake: Option<Snake>)
        ensures
            body@.len() == 0 <==> snake is None,
            snake matches Some(s) ==> s@.body == cells_of(body@) && s@.direction == direction
                && s@.wf(),
    {
        if body.len() == 0 {
            return None;
        }
        let mut tail: VecDeque<(i32, i32)> = VecDeque::new();
        let mut i: usize = 1;
        while i < body.len()
            invariant
                1 <= i <= body.len(),
                tail@ == body@.subrange(1, i as int),
            decreases body.len() - i,
        {
            tail.push_back(body[i]);
            i = i + 1;
        }
        let snake = Snake { head: body[0], tail, direction };
        proof {
            assert(seq![body[0]] + body@.subrange(1, body@.len() as int) =~= body@);
        }
        Some(snake)
    }

    /// The present heading.
    pub fn direction(&self) -> (d: Direction)
        ensures
            d == self@.direction,
    {
        self.direction
    }

    /// The cell of the head.
    pub fn head(&self) -> (cell: (i32, i32))
        ensures
            cell_of(cell) == self@.head(),
    {
        self.head
    }

    /// The occupied cells, head first.
    pub fn body(&self) -> (cells: Vec<(i32, i32)>)
        ensures
            cells_of(cells@) == self@.body,
    {
        let mut cells: Vec<(i32, i32)> = Vec::new();
        cells.push(self.head);
        let mut i: usize = 0;
        while i < self.tail.len()
            invariant
                i <= self.tail.len(),
                cells@ == seq![self.head] + self.tail@.subrange(0, i as int),
            decreases self.tail.len() - i,
        {
            cells.push(self.tail[i]);
            i = i + 1;
        }
        proof {
            assert(self.tail@.subrange(0, self.tail@.len() as int) =~= self.tail@);
        }
        cells
    }

    /// The squares that show the snake on the screen: one for each cell,
    /// head first.
    pub fn render(&self) -> (squares: Vec<Square>)
        ensures
            squares_show(squares@, self@.body),
    {
        let mut squares: Vec<Square> = Vec::new();
        squares.push(Square::of_cell(self.head.0, self.head.1));
        let mut i: usize = 0;
        while i < self.tail.len()
            invariant
                i <= self.tail.len(),
                squares_show(squares@, cells_of(seq![self.head] + self.tail@.subrange(0, i as int))),
            decreases self.tail.len() - i,
        {
            let cell = self.tail[i];
            squares.push(Square::of_cell(cell.0, cell.1));
            i = i + 1;
        }
        proof {
            assert(self.tail@.subrange(0, self.tail@.len() as int) =~= self.tail@);
        }
        squares
    }

    /// Whether `update` may be called: whether the cell ahead of the head
    /// still has coordinates in `i32`.
    pub fn can_update(&self) -> (b: bool)
        ensures
            b == self@.can_advance(),
    {
        match self.direction {
            Direction::Up => self.head.1 > i32::MIN,
            Direction::Down => self.head.1 < i32::MAX,
            Direction::Left => self.head.0 > i32::MIN,
            Direction::Right => self.head.0 < i32::MAX,
        }
    }

    /// A turn request. Any heading but the reverse of the present one
    /// replaces it; a reversal is ignored. The cells stay as they are.
    pub fn handle_input(&mut self, requested: Direction)
        ensures
            final(self)@ == old(self)@.handle_input(requested),
            final(self)@.body == old(self)@.body,
            requested == old(self)@.direction.opposite() ==> final(self)@.direction == old(
                self,
            )@.direction,
            requested != old(self)@.direction.opposite() ==> final(self)@.direction == requested,
    {
        if requested != self.direction.opposite() {
            self.direction = requested;
        }
    }

    /// One tick: the snake moves one cell along its heading and keeps its
    /// length.
    pub fn update(&mut self)
        requires
            old(self)@.can_advance(),
        ensures
            final(self)@ == old(self)@.advance(),
            final(self)@.wf(),
            final(self)@.body.len() == old(self)@.body.len(),
            final(self)@.head() == old(self)@.next_head(),
            final(self)@.direction == old(self)@.direction,
            forall|i: int|
                0 < i < old(self)@.body.len() ==> final(self)@.body[i] == old(self)@.body[i - 1],
    {
        let step = self.direction.offset();
        let new_head = (self.head.0 + step.0, self.head.1 + step.1);
        self.tail.push_front(self.head);
        self.tail.pop_back();
        self.head = new_head;
        proof {
            assert(self@.body =~= old(self)@.advance().body);
        }
    }
}

} // verus!
