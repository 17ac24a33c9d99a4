use snake_core::board::spawn_game_entities;
use snake_core::board::Board;
use snake_core::board::MoveOutcome;
use snake_core::events::Events;
use snake_core::events::PostGameEndEvent;
use snake_core::events::PreGameEndEvent;
use snake_core::events::PreGameStartEvent;
use snake_core::events::RunningGameEndEvent;
use snake_core::events::RunningGameStartEvent;
use snake_core::game::process_post_end_events;
use snake_core::game::process_pre_end_events;
use snake_core::game::process_pre_start_events;
use snake_core::game::process_running_end_events;
use snake_core::game::process_running_start_events;
use snake_core::game::snake_collision_system;
use snake_core::game::snake_movement_system;
use snake_core::game::snake_movement_with;
use snake_core::grid::GridPosition;
use snake_core::grid::SnakeDirection;
use snake_core::phase::PostGameEndListenerState;
use snake_core::phase::PreGameEndListenerState;
use snake_core::phase::PreGameStartListenerState;
use snake_core::phase::RunningGameEndListenerState;
use snake_core::phase::RunningGameStartListenerState;
use snake_core::phase::Timer;
use snake_core::snake::DirectionKeys;

fn press(direction: SnakeDirection) -> DirectionKeys {
    DirectionKeys {
        up: direction == SnakeDirection::Up,
        down: direction == SnakeDirection::Down,
        left: direction == SnakeDirection::Left,
        right: direction == SnakeDirection::Right,
    }
}

fn head(board: &Board) -> (i32, i32) {
    (board.head_position().x, board.head_position().y)
}

fn acting_board() -> Board {
    let mut board = spawn_game_entities(3);
    board.set_acting(true);
    board
}

#[test]
fn resting_snake_does_not_move_nor_count_time() {
    let mut events: Events<RunningGameEndEvent> = Events::new();
    let mut timer = Timer::from_micros(300_000);
    let mut board = spawn_game_entities(3);
    let outcome =
        snake_movement_with(1_000_000, &mut events, &mut timer, &mut board, GridPosition::new(1, 1));
    assert_eq!(outcome, None);
    assert_eq!(timer, Timer { elapsed: 0, duration: 300_000, finished: false });
    assert_eq!(head(&board), (0, 2));
    assert_eq!(events.len(), 0);
}

#[test]
fn acting_snake_waits_for_its_timer() {
    let mut events: Events<RunningGameEndEvent> = Events::new();
    let mut timer = Timer::from_micros(300_000);
    let mut board = acting_board();
    let relocation = GridPosition::new(1, 1);
    assert_eq!(snake_movement_with(100_000, &mut events, &mut timer, &mut board, relocation), None);
    assert_eq!(snake_movement_with(199_999, &mut events, &mut timer, &mut board, relocation), None);
    assert_eq!(timer.elapsed, 299_999);
    assert_eq!(head(&board), (0, 2));
    assert_eq!(
        snake_movement_with(1, &mut events, &mut timer, &mut board, relocation),
        Some(MoveOutcome::Moved)
    );
    assert_eq!(timer, Timer { elapsed: 0, duration: 300_000, finished: false });
    assert_eq!(head(&board), (0, 3));
    assert_eq!(events.len(), 0);
}

#[test]
fn one_tick_past_the_period_moves_once() {
    let mut events: Events<RunningGameEndEvent> = Events::new();
    let mut timer = Timer::from_micros(300_000);
    let mut board = acting_board();
    board.steer(press(SnakeDirection::Right));
    let outcome =
        snake_movement_with(900_000, &mut events, &mut timer, &mut board, GridPosition::new(1, 1));
    assert_eq!(outcome, Some(MoveOutcome::Moved));
    assert_eq!(head(&board), (1, 2));
    assert_eq!(timer.elapsed, 0);
}

#[test]
fn self_collision_fires_exactly_one_end_of_run() {
    let mut events: Events<RunningGameEndEvent> = Events::new();
    let mut timer = Timer::from_micros(300_000);
    let mut board = acting_board();
    let route = [
        (SnakeDirection::Left, (0, 0), MoveOutcome::Moved),
        (SnakeDirection::Left, (0, 0), MoveOutcome::Moved),
        (SnakeDirection::Left, (-3, 1), MoveOutcome::Ate),
        (SnakeDirection::Down, (3, 3), MoveOutcome::Ate),
        (SnakeDirection::Right, (0, 0), MoveOutcome::Moved),
    ];
    for (direction, relocation, expected) in route {
        board.steer(press(direction));
        let relocation = GridPosition::new(relocation.0, relocation.1);
        let outcome = snake_movement_with(300_000, &mut events, &mut timer, &mut board, relocation);
        assert_eq!(outcome, Some(expected));
        assert_eq!(events.len(), 0);
    }
    assert_eq!(board.len(), 5);
    board.steer(press(SnakeDirection::Up));
    let outcome =
        snake_movement_with(300_000, &mut events, &mut timer, &mut board, GridPosition::new(0, 0));
    assert_eq!(outcome, Some(MoveOutcome::Collided));
    assert_eq!(events.len(), 1);
    assert_eq!(head(&board), (-2, 1));
    assert_eq!(board.len(), 5);
    assert_eq!(timer.elapsed, 0);
    assert!(!snake_collision_system(&mut events, &board));
    assert_eq!(events.len(), 1);
}

#[test]
fn random_movement_eats_onto_a_free_cell() {
    let mut events: Events<RunningGameEndEvent> = Events::new();
    let mut timer = Timer::from_micros(300_000);
    let mut board = acting_board();
    board.steer(press(SnakeDirection::Left));
    assert_eq!(
        snake_movement_system(300_000, &mut events, &mut timer, &mut board),
        Some(MoveOutcome::Moved)
    );
    assert_eq!(snake_movement_system(100_000, &mut events, &mut timer, &mut board), None);
    assert_eq!(
        snake_movement_system(200_000, &mut events, &mut timer, &mut board),
        Some(MoveOutcome::Moved)
    );
    assert!(board.free_locations().contains(GridPosition::new(3, 3)));
    assert_eq!(
        snake_movement_system(300_000, &mut events, &mut timer, &mut board),
        Some(MoveOutcome::Ate)
    );
    assert_eq!(board.len(), 4);
    assert_eq!(head(&board), (-3, 2));
    assert_ne!(board.food(), GridPosition::new(-3, 2));
    assert!(!board.food().out_of_bounds(3));
    assert!(!board.free_locations().contains(board.food()));
    assert_eq!(board.free_locations().len(), 49 - 4 - 1);
    assert_eq!(events.len(), 0);
}

#[test]
fn head_beyond_the_boundary_ends_the_run() {
    let mut events: Events<RunningGameEndEvent> = Events::new();
    let mut timer = Timer::from_micros(300_000);
    let mut board = acting_board();
    let relocation = GridPosition::new(1, 1);
    snake_movement_with(300_000, &mut events, &mut timer, &mut board, relocation);
    assert_eq!(head(&board), (0, 3));
    assert!(!snake_collision_system(&mut events, &board));
    assert_eq!(events.len(), 0);
    snake_movement_with(300_000, &mut events, &mut timer, &mut board, relocation);
    assert_eq!(head(&board), (0, 4));
    assert!(snake_collision_system(&mut events, &board));
    assert_eq!(events.len(), 1);
}

#[test]
fn boundary_is_checked_on_every_side() {
    for (direction, steps) in [
        (SnakeDirection::Up, 2),
        (SnakeDirection::Left, 4),
        (SnakeDirection::Right, 4),
    ] {
        let mut events: Events<RunningGameEndEvent> = Events::new();
        let mut board = acting_board();
        board.steer(press(direction));
        for step in 1..=steps {
            assert!(!snake_collision_system(&mut events, &board));
            board.advance(GridPosition::new(1, -1));
            assert_eq!(snake_collision_system(&mut events, &board), step == steps);
        }
        assert_eq!(events.len(), 1);
    }
    let mut events: Events<RunningGameEndEvent> = Events::new();
    let mut board = acting_board();
    board.steer(press(SnakeDirection::Right));
    board.advance(GridPosition::new(1, -1));
    board.steer(press(SnakeDirection::Down));
    for _ in 0..5 {
        board.advance(GridPosition::new(-1, -1));
        assert!(!snake_collision_system(&mut events, &board));
    }
    assert_eq!(head(&board), (1, -3));
    board.advance(GridPosition::new(-1, -1));
    assert_eq!(head(&board), (1, -4));
    assert!(snake_collision_system(&mut events, &board));
}

#[test]
fn resting_snake_off_the_grid_fires_nothing() {
    let mut events: Events<RunningGameEndEvent> = Events::new();
    let mut board = acting_board();
    board.advance(GridPosition::new(1, 1));
    board.advance(GridPosition::new(1, 1));
    board.set_acting(false);
    assert!(board.head_out_of_bounds());
    assert!(!snake_collision_system(&mut events, &board));
    assert_eq!(events.len(), 0);
}

#[test]
fn start_of_pre_game_spawns_the_board() {
    let mut state = PreGameStartListenerState::default();
    let mut events: Events<PreGameStartEvent> = Events::new();
    let mut board: Option<Board> = None;
    process_pre_start_events(&mut state, &events, 3, &mut board);
    assert!(board.is_none());
    events.send(PreGameStartEvent);
    process_pre_start_events(&mut state, &events, 3, &mut board);
    let spawned = board.as_ref().unwrap();
    assert_eq!(spawned.len(), 3);
    assert_eq!(head(spawned), (0, 2));
    assert_eq!(spawned.food(), GridPosition::new(-3, 2));
    board.as_mut().unwrap().advance(GridPosition::new(1, 1));
    process_pre_start_events(&mut state, &events, 3, &mut board);
    assert_eq!(head(board.as_ref().unwrap()), (0, 3));
}

#[test]
fn end_of_pre_game_resets_the_movement_timer() {
    let mut state = PreGameEndListenerState::default();
    let mut events: Events<PreGameEndEvent> = Events::new();
    let mut timer = Timer::from_micros(300_000);
    timer.tick(200_000);
    process_pre_end_events(&mut state, &events, &mut timer);
    assert_eq!(timer.elapsed, 200_000);
    events.send(PreGameEndEvent);
    process_pre_end_events(&mut state, &events, &mut timer);
    assert_eq!(timer, Timer { elapsed: 0, duration: 300_000, finished: false });
}

#[test]
fn start_and_end_of_the_run_toggle_the_snake() {
    let mut start_state = RunningGameStartListenerState::default();
    let mut end_state = RunningGameEndListenerState::default();
    let mut starts: Events<RunningGameStartEvent> = Events::new();
    let mut ends: Events<RunningGameEndEvent> = Events::new();
    let mut board = Some(spawn_game_entities(3));
    process_running_start_events(&mut start_state, &starts, &mut board);
    assert!(!board.as_ref().unwrap().acting());
    starts.send(RunningGameStartEvent);
    process_running_start_events(&mut start_state, &starts, &mut board);
    assert!(board.as_ref().unwrap().acting());
    process_running_end_events(&mut end_state, &ends, &mut board);
    assert!(board.as_ref().unwrap().acting());
    ends.send(RunningGameEndEvent);
    process_running_end_events(&mut end_state, &ends, &mut board);
    assert!(!board.as_ref().unwrap().acting());
    process_running_start_events(&mut start_state, &starts, &mut board);
    assert!(!board.as_ref().unwrap().acting());
}

#[test]
fn start_of_the_run_without_a_board_is_harmless() {
    let mut state = RunningGameStartListenerState::default();
    let mut starts: Events<RunningGameStartEvent> = Events::new();
    starts.send(RunningGameStartEvent);
    let mut board: Option<Board> = None;
    process_running_start_events(&mut state, &starts, &mut board);
    assert!(board.is_none());
}

#[test]
fn end_of_post_game_despawns_the_board() {
    let mut state = PostGameEndListenerState::default();
    let mut events: Events<PostGameEndEvent> = Events::new();
    let mut board = Some(spawn_game_entities(3));
    process_post_end_events(&mut state, &events, &mut board);
    assert!(board.is_some());
    events.send(PostGameEndEvent);
    process_post_end_events(&mut state, &events, &mut board);
    assert!(board.is_none());
}
