use snake_core::geometry::{in_bounds, step, Direction, Position};
use snake_core::state::{
    contains_position, find_position, new_game, position_is_free, spawn_food, spawn_segment,
    GameState, LastTailPosition, SnakeHead, SnakeSegments,
};

fn pos(x: i32, y: i32) -> Position {
    Position { x, y }
}

fn state_with(chain: &[(i32, i32)], dir: Direction, foods: &[(i32, i32)]) -> GameState {
    GameState {
        width: 10,
        height: 10,
        head: SnakeHead { input_direction: dir, movement_direction: dir },
        segments: SnakeSegments(chain.iter().map(|&(x, y)| pos(x, y)).collect()),
        foods: foods.iter().map(|&(x, y)| pos(x, y)).collect(),
        last_tail_position: LastTailPosition(None),
    }
}

#[test]
fn opposite_involution_all_directions() {
    let all = [Direction::Left, Direction::Up, Direction::Right, Direction::Down];
    for d in all {
        assert_eq!(d.opposite().opposite(), d);
        assert_ne!(d.opposite(), d);
    }
}

#[test]
fn opposite_values() {
    assert_eq!(Direction::Left.opposite(), Direction::Right);
    assert_eq!(Direction::Right.opposite(), Direction::Left);
    assert_eq!(Direction::Up.opposite(), Direction::Down);
    assert_eq!(Direction::Down.opposite(), Direction::Up);
}

#[test]
fn step_moves_one_cell() {
    assert_eq!(step(pos(3, 3), Direction::Left), pos(2, 3));
    assert_eq!(step(pos(3, 3), Direction::Right), pos(4, 3));
    assert_eq!(step(pos(3, 3), Direction::Up), pos(3, 4));
    assert_eq!(step(pos(3, 3), Direction::Down), pos(3, 2));
}

#[test]
fn in_bounds_edges() {
    assert!(in_bounds(pos(0, 0), 10, 10));
    assert!(in_bounds(pos(9, 9), 10, 10));
    assert!(!in_bounds(pos(-1, 0), 10, 10));
    assert!(!in_bounds(pos(0, -1), 10, 10));
    assert!(!in_bounds(pos(10, 0), 10, 10));
    assert!(!in_bounds(pos(0, 10), 10, 10));
}

#[test]
fn new_game_initial_state() {
    let state = new_game(10, 10);
    assert_eq!(state.segments.0, vec![pos(3, 3), pos(3, 2)]);
    assert_eq!(state.head.input_direction, Direction::Up);
    assert_eq!(state.head.movement_direction, Direction::Up);
    assert!(state.foods.is_empty());
    assert!(state.last_tail_position.0.is_none());
}

#[test]
fn spawn_segment_appends_tail() {
    let mut segments = SnakeSegments(vec![pos(3, 3), pos(3, 2)]);
    spawn_segment(&mut segments, pos(3, 1));
    assert_eq!(segments.0, vec![pos(3, 3), pos(3, 2), pos(3, 1)]);
}

#[test]
fn find_and_contains_position() {
    let v = vec![pos(1, 1), pos(2, 2), pos(3, 3)];
    assert_eq!(find_position(&v, pos(2, 2)), 1);
    assert_eq!(find_position(&v, pos(5, 5)), 3);
    assert!(contains_position(&v, pos(3, 3)));
    assert!(!contains_position(&v, pos(0, 0)));
}

#[test]
fn food_spawn_acceptance() {
    let mut state = state_with(&[(3, 3), (3, 2)], Direction::Up, &[(7, 7)]);
    assert!(!position_is_free(&state, pos(3, 3)));
    assert!(!position_is_free(&state, pos(3, 2)));
    assert!(!position_is_free(&state, pos(7, 7)));
    assert!(position_is_free(&state, pos(5, 5)));
    spawn_food(&mut state, pos(5, 5));
    assert_eq!(state.foods, vec![pos(7, 7), pos(5, 5)]);
    assert!(!position_is_free(&state, pos(5, 5)));
}
