use snake::{Button, ButtonArgs, ButtonState, Direction, Event, Game, Key, Rgba, Snake, Square, CELL_SIZE};

fn game_at(body: Vec<(i32, i32)>, direction: Direction) -> Game {
    Game::new(Snake::new(body, direction).expect("a body with a cell"))
}

fn button(state: ButtonState, key: Key) -> Event {
    Event::Button(ButtonArgs { state, button: Button::Keyboard(key) })
}

#[test]
fn arrow_keys_ask_for_their_headings() {
    assert_eq!(Key::Up.direction(), Some(Direction::Up));
    assert_eq!(Key::Down.direction(), Some(Direction::Down));
    assert_eq!(Key::Left.direction(), Some(Direction::Left));
    assert_eq!(Key::Right.direction(), Some(Direction::Right));
    assert_eq!(Key::Other.direction(), None);
    assert_eq!(Button::Keyboard(Key::Left).direction(), Some(Direction::Left));
    assert_eq!(Button::Keyboard(Key::Other).direction(), None);
    assert_eq!(Button::Other.direction(), None);
}

#[test]
fn pressed_arrow_turns_the_snake() {
    let mut game = game_at(vec![(0, 0), (0, 1)], Direction::Right);
    game.pressed(&Button::Keyboard(Key::Up));
    assert_eq!(game.snake().direction(), Direction::Up);
    game.pressed(&Button::Keyboard(Key::Left));
    assert_eq!(game.snake().direction(), Direction::Left);
    game.pressed(&Button::Keyboard(Key::Down));
    assert_eq!(game.snake().direction(), Direction::Down);
    game.pressed(&Button::Keyboard(Key::Right));
    assert_eq!(game.snake().direction(), Direction::Right);
}

#[test]
fn pressed_reverse_arrow_is_ignored() {
    let cases = [
        (Direction::Up, Key::Down),
        (Direction::Down, Key::Up),
        (Direction::Left, Key::Right),
        (Direction::Right, Key::Left),
    ];
    for (direction, key) in cases {
        let mut game = game_at(vec![(0, 0), (0, 1)], direction);
        game.pressed(&Button::Keyboard(key));
        assert_eq!(game.snake().direction(), direction);
    }
}

#[test]
fn pressed_other_button_is_ignored() {
    let mut game = game_at(vec![(0, 0), (0, 1)], Direction::Right);
    game.pressed(&Button::Keyboard(Key::Other));
    assert_eq!(game.snake().direction(), Direction::Right);
    game.pressed(&Button::Other);
    assert_eq!(game.snake().direction(), Direction::Right);
    assert_eq!(game.snake().body(), vec![(0, 0), (0, 1)]);
}

#[test]
fn game_update_advances_the_snake() {
    let mut game = game_at(vec![(0, 0), (0, 1)], Direction::Right);
    assert!(game.can_update());
    game.update();
    assert_eq!(game.snake().body(), vec![(1, 0), (0, 0)]);
}

#[test]
fn game_update_is_refused_at_the_edge() {
    let game = game_at(vec![(0, i32::MAX)], Direction::Down);
    assert!(!game.can_update());
    assert!(!game.can_handle_event(&Event::Update));
    assert!(game.can_handle_event(&Event::Render));
    assert!(game.can_handle_event(&button(ButtonState::Press, Key::Up)));
    assert!(game.can_handle_event(&Event::Other));
}

#[test]
fn tick_event_advances_and_draws_nothing() {
    let mut game = game_at(vec![(0, 0), (0, 1)], Direction::Right);
    assert!(game.can_handle_event(&Event::Update));
    let frame = game.handle_event(&Event::Update);
    assert!(frame.is_none());
    assert_eq!(game.snake().body(), vec![(1, 0), (0, 0)]);
}

#[test]
fn press_event_turns_and_release_event_does_not() {
    let mut game = game_at(vec![(0, 0), (0, 1)], Direction::Right);
    assert!(game.handle_event(&button(ButtonState::Release, Key::Up)).is_none());
    assert_eq!(game.snake().direction(), Direction::Right);
    assert!(game.handle_event(&button(ButtonState::Press, Key::Up)).is_none());
    assert_eq!(game.snake().direction(), Direction::Up);
    assert!(game.handle_event(&button(ButtonState::Press, Key::Down)).is_none());
    assert_eq!(game.snake().direction(), Direction::Up);
    let mouse = Event::Button(ButtonArgs { state: ButtonState::Press, button: Button::Other });
    assert!(game.handle_event(&mouse).is_none());
    assert_eq!(game.snake().direction(), Direction::Up);
}

#[test]
fn other_event_changes_nothing() {
    let mut game = game_at(vec![(4, 4), (4, 5)], Direction::Left);
    assert!(game.handle_event(&Event::Other).is_none());
    assert_eq!(game.snake().body(), vec![(4, 4), (4, 5)]);
    assert_eq!(game.snake().direction(), Direction::Left);
}

#[test]
fn render_event_draws_and_changes_nothing() {
    let mut game = game_at(vec![(1, 0), (0, 0)], Direction::Right);
    let frame = game.handle_event(&Event::Render).expect("a frame");
    assert_eq!(frame.background, Rgba { red: 0, green: 255, blue: 0, alpha: 255 });
    assert_eq!(frame.fill, Rgba { red: 0, green: 0, blue: 255, alpha: 255 });
    assert_eq!(
        frame.squares,
        vec![Square { x: 20, y: 0, side: 20 }, Square { x: 0, y: 0, side: 20 }]
    );
    assert_eq!(game.snake().body(), vec![(1, 0), (0, 0)]);
    assert_eq!(game.snake().direction(), Direction::Right);
}

#[test]
fn squares_scale_cells_by_the_cell_size() {
    assert_eq!(CELL_SIZE, 20);
    assert_eq!(Square::of_cell(3, 7), Square { x: 60, y: 140, side: 20 });
    assert_eq!(Square::of_cell(-1, -9), Square { x: -20, y: -180, side: 20 });
    assert_eq!(Square::of_cell(0, 0), Square { x: 0, y: 0, side: 20 });
    assert_eq!(
        Square::of_cell(i32::MAX, i32::MIN),
        Square { x: 42_949_672_940, y: -42_949_672_960, side: 20 }
    );
}

#[test]
fn snake_render_lists_squares_head_first() {
    let snake = Snake::new(vec![(9, 9), (8, 9), (8, 8)], Direction::Right).expect("a body");
    assert_eq!(
        snake.render(),
        vec![
            Square { x: 180, y: 180, side: 20 },
            Square { x: 160, y: 180, side: 20 },
            Square { x: 160, y: 160, side: 20 },
        ]
    );
    let frame = Game::new(snake).render();
    assert_eq!(frame.squares.len(), 3);
    assert_eq!(frame.squares[0], Square { x: 180, y: 180, side: 20 });
}

#[test]
fn colours() {
    assert_eq!(Rgba::solid_green(), Rgba { red: 0, green: 255, blue: 0, alpha: 255 });
    assert_eq!(Rgba::solid_blue(), Rgba { red: 0, green: 0, blue: 255, alpha: 255 });
}

#[test]
fn a_short_session() {
    let mut game = game_at(vec![(0, 0), (0, 1)], Direction::Right);
    let events = [
        Event::Update,
        button(ButtonState::Press, Key::Left),
        Event::Update,
        button(ButtonState::Press, Key::Down),
        button(ButtonState::Release, Key::Down),
        Event::Update,
        Event::Other,
        Event::Update,
    ];
    for event in events.iter() {
        assert!(game.can_handle_event(event));
        assert!(game.handle_event(event).is_none());
    }
    assert_eq!(game.snake().direction(), Direction::Down);
    assert_eq!(game.snake().body(), vec![(2, 2), (2, 1)]);
}
