//! The game: a snake, and what the host's events do to it.

use vstd::prelude::*;
use crate::input::{Button, ButtonState, Event};
use crate::scene::{squares_show, Rgba, Scene};
use crate::snake::Snake;
use crate::state::SnakeState;

verus! {

/// A running game. Its state is that of its snake.
pub struct Game {
    snake: Snake,
}

impl View for Game {
    type V = SnakeState;

    closed spec fn view(&self) -> SnakeState {
        self.snake@
    }
}

impl Game {
    /// Whether a frame is the picture of a state: a green background, and
    /// over it a blue square for each cell of the snake, head first.
    pub open spec fn draws(scene: Scene, state: SnakeState) -> bool {
        &&& scene.background == Rgba::spec_solid_green()
        &&& scene.fill == Rgba::spec_solid_blue()
        &&& squares_show(scene.squares@, state.body)
    }

    /// Whether an event may be handled: every event but a tick that would
    /// take the head out of `i32`.
    pub open spec fn can_handle(&self, event: Event) -> bool {
        event is Update ==> self@.can_advance()
    }

    /// Every game's snake occupies at least one cell.
    pub proof fn lemma_nonempty(&self)
        ensures
            self@.wf(),
    {
        self.snake.lemma_nonempty();
    }

    /// A game that starts with the given snake.
    pub fn new(snake: Snake) -> (game: Game)
        ensures
            game@ == snake@,
            game@.wf(),
    {
        proof {
            snake.lemma_nonempty();
        }
        Game { snake }
    }

    /// The snake.
    pub fn snake(&self) -> (snake: &Snake)
        ensures
            snake@ == self@,
    {
        &self.snake
    }

    /// The frame that shows the game as it stands.
    pub fn render(&self) -> (scene: Scene)
        ensures
            Game::draws(scene, self@),
    {
        Scene {
            background: Rgba::solid_green(),
            fill: Rgba::solid_blue(),
            squares: self.snake.render(),
        }
    }

    /// Whether `update` may be called.
    pub fn can_update(&self) -> (b: bool)
        ensures
            b == self@.can_advance(),
    {
        self.snake.can_update()
    }

    /// One tick: the snake moves one cell along its heading.
    pub fn update(&mut self)
        requires
            old(self)@.can_advance(),
        ensures
            final(self)@ == old(self)@.advance(),
            final(self)@.wf(),
            final(self)@.body.len() == old(self)@.body.len(),
    {
        self.snake.update();
    }

    /// A button went down. An arrow key asks for its heading, which is taken
    /// unless it is the reverse of the present one; any other button is
    /// ignored.
    pub fn pressed(&mut self, arg: &Button)
        ensures
            final(self)@ == old(self)@.pressed(*arg),
            final(self)@.body == old(self)@.body,
            arg.spec_direction() is None ==> final(self)@ == old(self)@,
            arg.spec_direction() matches Some(requested) ==> final(self)@ == old(
                self,
            )@.handle_input(requested),
    {
        match arg.direction() {
            Some(requested) => self.snake.handle_input(requested),
            None => {},
        }
    }

    /// Whether `handle_event` may be called with this event.
    pub fn can_handle_event(&self, event: &Event) -> (b: bool)
        ensures
            b == self.can_handle(*event),
    {
        match event {
            Event::Update => self.snake.can_update(),
            _ => true,
        }
    }

    /// One event of the host's loop. A tick advances the snake; a button that
    /// goes down is handled as `pressed` does; a request to draw changes
    /// nothing and is answered with the frame to draw. No other event has an
    /// effect, and only a request to draw is answered with a frame.
    pub fn handle_event(&mut self, event: &Event) -> (frame: Option<Scene>)
        requires
            old(self).can_handle(*event),
        ensures
            final(self)@ == old(self)@.on_event(*event),
            *event is Render <==> frame is Some,
            frame matches Some(scene) ==> Game::draws(scene, old(self)@),
    {
        match event {
            Event::Render => Some(self.render()),
            Event::Update => {
                self.update();
                None
            },
            Event::Button(args) => {
                if args.state == ButtonState::Press {
                    self.pressed(&args.button);
                }
                None
            },
            Event::Other => None,
        }
    }
}

} // verus!
