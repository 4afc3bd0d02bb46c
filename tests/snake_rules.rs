use snake::food::EatFoodEvent;
use snake::grid::{collide, get_next_position, Pos, SnakeDirection};
use snake::snake::{snake_move, snake_spawn, stronger, Segment, Snake};

fn p(x: i64, y: i64) -> Pos {
    Pos { x, y }
}

fn snake_of(body: Vec<Pos>) -> (Snake, Vec<Segment>) {
    let segments = body
        .iter()
        .enumerate()
        .map(|(i, pos)| Segment { pos: *pos, head: i == 0 })
        .collect();
    (Snake { body }, segments)
}

fn head_count(segments: &[Segment]) -> usize {
    segments.iter().filter(|s| s.head).count()
}

#[test]
fn spawn_gives_one_segment_at_start() {
    let (snake, segments) = snake_spawn();
    assert_eq!(snake.body, vec![p(250, 250)]);
    assert_eq!(segments, vec![Segment { pos: p(250, 250), head: true }]);
}

#[test]
fn next_position_in_each_direction() {
    assert_eq!(get_next_position(p(250, 250), SnakeDirection::Up), p(250, 300));
    assert_eq!(get_next_position(p(250, 250), SnakeDirection::Down), p(250, 200));
    assert_eq!(get_next_position(p(250, 250), SnakeDirection::Left), p(200, 250));
    assert_eq!(get_next_position(p(250, 250), SnakeDirection::Right), p(300, 250));
}

#[test]
fn collide_needs_strict_overlap() {
    assert!(collide(p(100, 100), p(100, 100)));
    assert!(collide(p(100, 100), p(149, 51)));
    assert!(!collide(p(100, 100), p(150, 100)));
    assert!(!collide(p(100, 100), p(100, 50)));
}

#[test]
fn single_segment_moves_right() {
    let (mut snake, mut segments) = snake_spawn();
    snake_move(&mut snake, &mut segments, SnakeDirection::Right);
    assert_eq!(snake.body, vec![p(300, 250)]);
    assert_eq!(segments, vec![Segment { pos: p(300, 250), head: true }]);
}

#[test]
fn moves_keep_length_and_form_a_path() {
    let (mut snake, mut segments) = snake_of(vec![p(200, 200), p(150, 200), p(100, 200)]);
    let dirs = [SnakeDirection::Up, SnakeDirection::Up, SnakeDirection::Right, SnakeDirection::Down];
    for d in dirs {
        snake_move(&mut snake, &mut segments, d);
        assert_eq!(snake.body.len(), 3);
        assert_eq!(head_count(&segments), 1);
        assert!(segments[0].head);
    }
    assert_eq!(snake.body, vec![p(250, 250), p(250, 300), p(200, 300)]);
    let positions: Vec<Pos> = segments.iter().map(|s| s.pos).collect();
    assert_eq!(positions, snake.body);
}

#[test]
fn eating_grows_at_the_food_position() {
    let (mut snake, mut segments) = snake_of(vec![p(200, 200), p(150, 200)]);
    stronger(&mut snake, &mut segments, EatFoodEvent(p(250, 200)));
    assert_eq!(snake.body, vec![p(250, 200), p(200, 200), p(150, 200)]);
    assert_eq!(segments.len(), 3);
    assert_eq!(head_count(&segments), 1);
    assert_eq!(segments[0], Segment { pos: p(250, 200), head: true });
    assert_eq!(segments[1], Segment { pos: p(200, 200), head: false });
}
