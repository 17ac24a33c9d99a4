use snake_core::grid::GridPosition;
use snake_core::grid::SnakeDirection;
use snake_core::snake::player_input_system;
use snake_core::snake::DirectionKeys;
use snake_core::snake::Snake;

fn keys(up: bool, down: bool, left: bool, right: bool) -> DirectionKeys {
    DirectionKeys { up, down, left, right }
}

fn snake_heading(direction: SnakeDirection, last_direction: SnakeDirection) -> Snake {
    let mut snake = Snake::default();
    snake.direction = direction;
    snake.last_direction = last_direction;
    snake
}

#[test]
fn new_position_keeps_coordinates() {
    let p = GridPosition::new(-3, 2);
    assert_eq!(p.x, -3);
    assert_eq!(p.y, 2);
    assert_eq!(p, GridPosition { x: -3, y: 2 });
}

#[test]
fn opposite_pairs_up_with_down_and_left_with_right() {
    assert_eq!(SnakeDirection::Up.opposite(), SnakeDirection::Down);
    assert_eq!(SnakeDirection::Down.opposite(), SnakeDirection::Up);
    assert_eq!(SnakeDirection::Left.opposite(), SnakeDirection::Right);
    assert_eq!(SnakeDirection::Right.opposite(), SnakeDirection::Left);
}

#[test]
fn opposite_twice_is_identity() {
    for d in [
        SnakeDirection::Up,
        SnakeDirection::Down,
        SnakeDirection::Left,
        SnakeDirection::Right,
    ] {
        assert_eq!(d.opposite().opposite(), d);
        assert_ne!(d.opposite(), d);
    }
}

#[test]
fn neighbor_offsets_by_one_grid_unit() {
    let p = GridPosition::new(-3, 1);
    assert_eq!(p.neighbor(SnakeDirection::Up), GridPosition::new(-3, 2));
    assert_eq!(p.neighbor(SnakeDirection::Down), GridPosition::new(-3, 0));
    assert_eq!(p.neighbor(SnakeDirection::Left), GridPosition::new(-4, 1));
    assert_eq!(p.neighbor(SnakeDirection::Right), GridPosition::new(-2, 1));
}

#[test]
fn out_of_bounds_is_strictly_beyond_the_extent() {
    assert!(!GridPosition::new(3, 3).out_of_bounds(3));
    assert!(!GridPosition::new(-3, -3).out_of_bounds(3));
    assert!(!GridPosition::new(0, 0).out_of_bounds(0));
    assert!(GridPosition::new(4, 0).out_of_bounds(3));
    assert!(GridPosition::new(-4, 0).out_of_bounds(3));
    assert!(GridPosition::new(0, 4).out_of_bounds(3));
    assert!(GridPosition::new(0, -4).out_of_bounds(3));
    assert!(GridPosition::new(1, 0).out_of_bounds(0));
}

#[test]
fn default_snake_is_empty_and_heads_up() {
    let snake = Snake::default();
    assert!(snake.body.is_empty());
    assert_eq!(snake.direction, SnakeDirection::Up);
    assert_eq!(snake.last_direction, SnakeDirection::Up);
}

#[test]
fn reversal_is_ignored() {
    let mut snake = snake_heading(SnakeDirection::Up, SnakeDirection::Up);
    player_input_system(keys(false, true, false, false), &mut snake);
    assert_eq!(snake.direction, SnakeDirection::Up);
    assert_eq!(snake.last_direction, SnakeDirection::Up);
}

#[test]
fn reversal_is_ignored_after_a_valid_turn() {
    let mut snake = snake_heading(SnakeDirection::Up, SnakeDirection::Up);
    player_input_system(keys(false, false, true, false), &mut snake);
    assert_eq!(snake.direction, SnakeDirection::Left);
    player_input_system(keys(false, true, false, false), &mut snake);
    assert_eq!(snake.direction, SnakeDirection::Left);
}

#[test]
fn each_reversal_is_ignored() {
    let all = [
        (SnakeDirection::Up, keys(false, true, false, false)),
        (SnakeDirection::Down, keys(true, false, false, false)),
        (SnakeDirection::Left, keys(false, false, false, true)),
        (SnakeDirection::Right, keys(false, false, true, false)),
    ];
    for (last, reversal) in all {
        let mut snake = snake_heading(last, last);
        player_input_system(reversal, &mut snake);
        assert_eq!(snake.direction, last);
    }
}

#[test]
fn turn_is_accepted() {
    let mut snake = snake_heading(SnakeDirection::Up, SnakeDirection::Up);
    player_input_system(keys(false, false, false, true), &mut snake);
    assert_eq!(snake.direction, SnakeDirection::Right);
    assert_eq!(snake.last_direction, SnakeDirection::Up);
}

#[test]
fn no_key_changes_nothing() {
    let mut snake = snake_heading(SnakeDirection::Left, SnakeDirection::Up);
    player_input_system(keys(false, false, false, false), &mut snake);
    assert_eq!(snake.direction, SnakeDirection::Left);
}

#[test]
fn last_accepted_key_in_fixed_order_wins() {
    let mut snake = snake_heading(SnakeDirection::Up, SnakeDirection::Up);
    player_input_system(keys(true, false, true, true), &mut snake);
    assert_eq!(snake.direction, SnakeDirection::Right);
    let mut snake = snake_heading(SnakeDirection::Up, SnakeDirection::Left);
    player_input_system(keys(true, true, true, true), &mut snake);
    assert_eq!(snake.direction, SnakeDirection::Left);
}

#[test]
fn rejected_key_does_not_stop_later_keys() {
    let mut snake = snake_heading(SnakeDirection::Down, SnakeDirection::Down);
    player_input_system(keys(true, false, true, false), &mut snake);
    assert_eq!(snake.direction, SnakeDirection::Left);
}

#[test]
fn reversal_is_judged_by_the_last_move_not_the_pending_direction() {
    let mut snake = snake_heading(SnakeDirection::Left, SnakeDirection::Up);
    player_input_system(keys(false, false, false, true), &mut snake);
    assert_eq!(snake.direction, SnakeDirection::Right);
    player_input_system(keys(false, true, false, false), &mut snake);
    assert_eq!(snake.direction, SnakeDirection::Right);
}
