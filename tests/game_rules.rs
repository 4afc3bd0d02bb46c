use snake::game::Game;
use snake::grid::{Cell, Pos, SnakeDirection};
use snake::state::{control_input, game_pause, AppResource, AppState, GameState, KeyPresses};

fn no_keys() -> KeyPresses {
    KeyPresses { up: false, down: false, left: false, right: false, space: false }
}

#[test]
fn arrow_keys_pick_the_direction() {
    let mut r = AppResource { direction: SnakeDirection::Right };
    control_input(&mut r, &no_keys());
    assert_eq!(r.direction, SnakeDirection::Right);
    control_input(&mut r, &KeyPresses { left: true, ..no_keys() });
    assert_eq!(r.direction, SnakeDirection::Left);
    control_input(&mut r, &KeyPresses { down: true, right: true, ..no_keys() });
    assert_eq!(r.direction, SnakeDirection::Down);
    control_input(&mut r, &KeyPresses { up: true, down: true, ..no_keys() });
    assert_eq!(r.direction, SnakeDirection::Up);
}

#[test]
fn space_toggles_pause() {
    let space = KeyPresses { space: true, ..no_keys() };
    assert_eq!(game_pause(GameState::Playing, &space), GameState::Paused);
    assert_eq!(game_pause(GameState::Paused, &space), GameState::Playing);
    assert_eq!(game_pause(GameState::Playing, &no_keys()), GameState::Playing);
}

#[test]
fn setup_starts_a_session() {
    let g = Game::setup();
    assert_eq!(g.app_state, AppState::InGame);
    assert_eq!(g.game_state, GameState::Playing);
    assert_eq!(g.walls.len(), 46);
    assert_eq!(g.snake.body, vec![Pos { x: 250, y: 250 }]);
    assert_eq!(g.food, None);
}

#[test]
fn first_tick_moves_head_right() {
    let mut g = Game::setup();
    g.frame(&no_keys(), true);
    assert_eq!(g.snake.body, vec![Pos { x: 300, y: 250 }]);
    assert_eq!(g.segments.len(), 1);
    assert_eq!(g.segments[0].pos, Pos { x: 300, y: 250 });
    assert!(g.segments[0].head);
    assert_eq!(g.app_state, AppState::InGame);
    assert!(g.food.is_some());
}

#[test]
fn paused_game_does_not_move() {
    let mut g = Game::setup();
    g.frame(&KeyPresses { space: true, ..no_keys() }, true);
    assert_eq!(g.game_state, GameState::Paused);
    assert_eq!(g.snake.body[0], Pos { x: 250, y: 250 });
}

#[test]
fn running_into_the_left_wall_ends_the_game() {
    let mut g = Game::setup();
    g.frame(&KeyPresses { left: true, ..no_keys() }, true);
    for _ in 0..4 {
        g.frame(&no_keys(), true);
    }
    assert_eq!(g.snake.body[0], Pos { x: 0, y: 250 });
    assert_eq!(g.app_state, AppState::Over);
    let before = g.snake.body.clone();
    g.frame(&no_keys(), true);
    assert_eq!(g.snake.body, before);
    assert_eq!(g.app_state, AppState::Over);
}

#[test]
fn eating_in_a_frame_grows_the_snake() {
    let mut g = Game::setup();
    g.food = Some(Cell(300, 250));
    g.frame(&no_keys(), true);
    assert_eq!(g.snake.body, vec![Pos { x: 300, y: 250 }, Pos { x: 300, y: 250 }]);
    assert_eq!(g.segments.iter().filter(|s| s.head).count(), 1);
    assert!(g.food.is_some());
    assert_ne!(g.food, Some(Cell(300, 250)));
}

#[test]
fn setup_places_one_head_segment_and_distinct_walls() {
    let g = Game::setup();
    assert_eq!(g.segments.len(), 1);
    assert_eq!(g.segments[0].pos, Pos { x: 250, y: 250 });
    assert!(g.segments[0].head);
    for (k, a) in g.walls.iter().enumerate() {
        for b in g.walls.iter().skip(k + 1) {
            assert_ne!(a, b);
        }
    }
}

#[test]
fn paused_frame_leaves_the_session_alone() {
    let mut g = Game::setup();
    g.frame(&no_keys(), false);
    let food = g.food;
    g.frame(&KeyPresses { space: true, ..no_keys() }, false);
    let body = g.snake.body.clone();
    let segments = g.segments.clone();
    for _ in 0..3 {
        g.frame(&KeyPresses { left: true, ..no_keys() }, true);
        assert_eq!(g.game_state, GameState::Paused);
        assert_eq!(g.app_state, AppState::InGame);
        assert_eq!(g.resource.direction, SnakeDirection::Right);
        assert_eq!(g.snake.body, body);
        assert_eq!(g.segments, segments);
        assert_eq!(g.food, food);
    }
}

#[test]
fn ended_game_keeps_its_pause_state() {
    let mut g = Game::setup();
    g.app_state = AppState::Over;
    g.frame(&KeyPresses { space: true, ..no_keys() }, true);
    assert_eq!(g.game_state, GameState::Playing);
    assert_eq!(g.snake.body, vec![Pos { x: 250, y: 250 }]);
}
