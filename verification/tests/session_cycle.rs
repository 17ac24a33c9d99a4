use snake_core::board::MoveOutcome;
use snake_core::grid::GridPosition;
use snake_core::grid::SnakeDirection;
use snake_core::grid::MAX_GRID_SIZE;
use snake_core::session::FrameReport;
use snake_core::session::GameSession;
use snake_core::snake::DirectionKeys;

const NO_KEYS: DirectionKeys = DirectionKeys { up: false, down: false, left: false, right: false };

const QUIET: FrameReport =
    FrameReport { spawned: false, despawned: false, outcome: None, run_ended: false };

fn press(direction: SnakeDirection) -> DirectionKeys {
    DirectionKeys {
        up: direction == SnakeDirection::Up,
        down: direction == SnakeDirection::Down,
        left: direction == SnakeDirection::Left,
        right: direction == SnakeDirection::Right,
    }
}

fn head(session: &GameSession) -> (i32, i32) {
    let p = session.board().unwrap().head_position();
    (p.x, p.y)
}

fn phases(session: &GameSession) -> (bool, bool, bool) {
    (session.pre_game().active, session.running().active, session.post_game().active)
}

/// A session that has just entered the run, with the snake where it was spawned.
fn running_session() -> GameSession {
    let mut session = GameSession::new(3, 300_000).unwrap();
    session.tick(2_900_000, NO_KEYS);
    session.tick(100_000, NO_KEYS);
    assert_eq!(phases(&session), (false, true, false));
    assert_eq!(head(&session), (0, 2));
    session
}

#[test]
fn session_needs_a_grid_that_holds_the_spawn() {
    assert!(GameSession::new(2, 300_000).is_none());
    assert!(GameSession::new(-1, 300_000).is_none());
    assert!(GameSession::new(MAX_GRID_SIZE + 1, 300_000).is_none());
    assert!(GameSession::new(3, 300_000).is_some());
    assert!(GameSession::new(30, 500_000).is_some());
}

#[test]
fn session_begins_in_the_pre_game_phase_without_a_board() {
    let session = GameSession::new(3, 300_000).unwrap();
    assert_eq!(session.grid_size(), 3);
    assert_eq!(phases(&session), (true, false, false));
    assert_eq!(session.pre_game().timer.elapsed, 0);
    assert_eq!(session.snake_timer().duration, 300_000);
    assert!(session.board().is_none());
}

#[test]
fn frame_without_time_spawns_nothing() {
    let mut session = GameSession::new(3, 300_000).unwrap();
    assert_eq!(session.tick(0, NO_KEYS), QUIET);
    assert_eq!(session.tick(0, press(SnakeDirection::Left)), QUIET);
    assert!(session.board().is_none());
    assert_eq!(phases(&session), (true, false, false));
}

#[test]
fn first_frame_with_time_spawns_once() {
    let mut session = GameSession::new(3, 300_000).unwrap();
    session.tick(0, NO_KEYS);
    assert_eq!(session.tick(16_000, NO_KEYS), FrameReport { spawned: true, ..QUIET });
    assert_eq!(head(&session), (0, 2));
    assert!(!session.board().unwrap().acting());
    assert_eq!(session.tick(16_000, NO_KEYS), QUIET);
    assert_eq!(session.tick(1_000_000, NO_KEYS), QUIET);
    assert_eq!(head(&session), (0, 2));
    assert_eq!(session.pre_game().timer.elapsed, 1_032_000);
}

#[test]
fn countdown_hands_over_to_the_run_once() {
    let mut session = GameSession::new(3, 300_000).unwrap();
    assert_eq!(session.tick(1_000_000, NO_KEYS), FrameReport { spawned: true, ..QUIET });
    assert_eq!(session.tick(1_000_000, NO_KEYS), QUIET);
    assert_eq!(session.tick(999_999, NO_KEYS), QUIET);
    assert_eq!(phases(&session), (true, false, false));
    assert_eq!(session.tick(1, NO_KEYS), QUIET);
    assert_eq!(phases(&session), (false, true, false));
    assert_eq!(session.pre_game().timer.elapsed, 0);
    assert!(session.board().unwrap().acting());
    assert_eq!(session.snake_timer().elapsed, 1);
    assert_eq!(session.tick(100_000, NO_KEYS), QUIET);
    assert_eq!(phases(&session), (false, true, false));
}

#[test]
fn snake_rests_during_the_countdown() {
    let mut session = GameSession::new(3, 300_000).unwrap();
    for _ in 0..9 {
        session.tick(320_000, NO_KEYS);
        assert_eq!(head(&session), (0, 2));
        assert_eq!(session.snake_timer().elapsed, 0);
    }
    assert_eq!(phases(&session), (true, false, false));
}

#[test]
fn input_is_taken_during_the_countdown() {
    let mut session = GameSession::new(3, 300_000).unwrap();
    session.tick(1_000_000, press(SnakeDirection::Right));
    assert_eq!(session.board().unwrap().snake().direction, SnakeDirection::Right);
    session.tick(1_000_000, press(SnakeDirection::Down));
    assert_eq!(session.board().unwrap().snake().direction, SnakeDirection::Right);
}

#[test]
fn one_long_frame_spawns_starts_the_run_and_moves() {
    let mut session = GameSession::new(3, 300_000).unwrap();
    let report = session.tick(3_000_000, NO_KEYS);
    assert_eq!(
        report,
        FrameReport { spawned: true, outcome: Some(MoveOutcome::Moved), ..QUIET }
    );
    assert_eq!(phases(&session), (false, true, false));
    assert_eq!(head(&session), (0, 3));
}

#[test]
fn running_snake_moves_once_per_period() {
    let mut session = running_session();
    assert_eq!(session.tick(100_000, NO_KEYS), QUIET);
    assert_eq!(head(&session), (0, 2));
    assert_eq!(
        session.tick(100_000, press(SnakeDirection::Left)),
        FrameReport { outcome: Some(MoveOutcome::Moved), ..QUIET }
    );
    assert_eq!(head(&session), (0, 3));
    assert_eq!(session.board().unwrap().snake().direction, SnakeDirection::Left);
    assert_eq!(session.tick(299_999, NO_KEYS), QUIET);
    assert_eq!(
        session.tick(1, NO_KEYS),
        FrameReport { outcome: Some(MoveOutcome::Moved), ..QUIET }
    );
    assert_eq!(head(&session), (-1, 3));
}

#[test]
fn leaving_the_grid_ends_the_run_and_the_cycle_goes_round() {
    let mut session = running_session();
    session.tick(300_000, NO_KEYS);
    assert_eq!(head(&session), (0, 3));
    let report = session.tick(300_000, NO_KEYS);
    assert_eq!(
        report,
        FrameReport { outcome: Some(MoveOutcome::Moved), run_ended: true, ..QUIET }
    );
    assert_eq!(head(&session), (0, 4));
    assert_eq!(phases(&session), (false, true, false));

    assert_eq!(session.tick(300_000, NO_KEYS), QUIET);
    assert_eq!(phases(&session), (false, false, true));
    assert!(!session.board().unwrap().acting());
    assert_eq!(head(&session), (0, 4));
    assert_eq!(session.post_game().timer.elapsed, 0);

    assert_eq!(session.tick(3_999_999, NO_KEYS), QUIET);
    assert_eq!(head(&session), (0, 4));
    assert_eq!(phases(&session), (false, false, true));
    assert_eq!(session.tick(1, NO_KEYS), FrameReport { despawned: true, ..QUIET });
    assert_eq!(phases(&session), (true, false, false));
    assert!(session.board().is_none());
    assert_eq!(session.post_game().timer.elapsed, 0);

    assert_eq!(session.tick(0, NO_KEYS), QUIET);
    assert!(session.board().is_none());
    assert_eq!(session.tick(10, NO_KEYS), FrameReport { spawned: true, ..QUIET });
    assert_eq!(head(&session), (0, 2));
    assert_eq!(
        session.tick(2_999_990, NO_KEYS),
        FrameReport { outcome: Some(MoveOutcome::Moved), ..QUIET }
    );
    assert_eq!(phases(&session), (false, true, false));
    assert_eq!(head(&session), (0, 3));
}

#[test]
fn self_collision_in_a_session_ends_the_run_once() {
    let mut session = running_session();
    let route = [
        (SnakeDirection::Left, (0, 0), MoveOutcome::Moved),
        (SnakeDirection::Left, (0, 0), MoveOutcome::Moved),
        (SnakeDirection::Down, (-3, 1), MoveOutcome::Ate),
        (SnakeDirection::Right, (3, 3), MoveOutcome::Ate),
        (SnakeDirection::Up, (0, 0), MoveOutcome::Moved),
    ];
    session.tick_with(0, press(SnakeDirection::Left), GridPosition::new(0, 0));
    for (next_direction, relocation, expected) in route {
        let relocation = GridPosition::new(relocation.0, relocation.1);
        let report = session.tick_with(300_000, press(next_direction), relocation);
        assert_eq!(report, FrameReport { outcome: Some(expected), ..QUIET });
    }
    assert_eq!(session.board().unwrap().len(), 5);
    assert_eq!(head(&session), (-2, 1));
    let report = session.tick_with(300_000, NO_KEYS, GridPosition::new(0, 0));
    assert_eq!(
        report,
        FrameReport { outcome: Some(MoveOutcome::Collided), run_ended: true, ..QUIET }
    );
    assert_eq!(head(&session), (-2, 1));
    assert_eq!(session.board().unwrap().len(), 5);
    assert_eq!(session.tick_with(300_000, NO_KEYS, GridPosition::new(0, 0)), QUIET);
    assert_eq!(phases(&session), (false, false, true));
    assert_eq!(head(&session), (-2, 1));
}

#[test]
fn random_session_pickup_keeps_the_food_on_a_free_cell() {
    let mut session = running_session();
    session.tick(0, press(SnakeDirection::Left));
    session.tick(300_000, NO_KEYS);
    session.tick(300_000, NO_KEYS);
    let report = session.tick(300_000, NO_KEYS);
    assert_eq!(report, FrameReport { outcome: Some(MoveOutcome::Ate), ..QUIET });
    let board = session.board().unwrap();
    assert_eq!(board.len(), 4);
    assert_eq!(board.head_position(), GridPosition::new(-3, 2));
    assert_ne!(board.food(), GridPosition::new(-3, 2));
    assert!(!board.food().out_of_bounds(3));
    assert!(!board.free_locations().contains(board.food()));
    assert_eq!(board.free_locations().len(), 44);
}
