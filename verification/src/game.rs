//! The systems that act on the board: the timed move of the snake, the
//! check of the boundary, and the listeners that spawn and despawn the board
//! and start and stop the snake as the phases change.

use vstd::prelude::*;
use crate::board::spawn_game_entities;
use crate::board::spawned;
use crate::board::Board;
use crate::board::BoardModel;
use crate::board::MoveOutcome;
use crate::events::Events;
use crate::events::RunningGameEndEvent;
use crate::events::RunningGameStartEvent;
use crate::events::PreGameStartEvent;
use crate::events::PreGameEndEvent;
use crate::events::PostGameEndEvent;
use crate::grid::GridPosition;
use crate::grid::MAX_GRID_SIZE;
use crate::phase::PostGameEndListenerState;
use crate::phase::PreGameEndListenerState;
use crate::phase::PreGameStartListenerState;
use crate::phase::RunningGameEndListenerState;
use crate::phase::RunningGameStartListenerState;
use crate::phase::Timer;
use crate::systems::with_event;

verus! {

/// The content of a board that may be absent.
pub open spec fn model_of(board: Option<Board>) -> Option<BoardModel> {
    match board {
        Some(b) => Some(b@),
        None => None,
    }
}

/// Whether a board that may be absent meets its invariant.
pub open spec fn wf_if_any(board: Option<Board>) -> bool {
    match board {
        Some(b) => b.wf(),
        None => true,
    }
}

/// Whether the snake makes a move in a frame of `delta` microseconds: it
/// must be acting, and the frame must take the movement timer to its end.
pub open spec fn move_is_due(board: BoardModel, snake_timer: Timer, delta: u64) -> bool {
    board.acting && snake_timer.ticked(delta).finished
}

/// The movement timer after a frame of `delta` microseconds: untouched
/// while the snake rests, else advanced, and set back to zero by a move.
pub open spec fn movement_timer_after(board: BoardModel, snake_timer: Timer, delta: u64) -> Timer {
    if !board.acting {
        snake_timer
    } else if snake_timer.ticked(delta).finished {
        snake_timer.cleared()
    } else {
        snake_timer.ticked(delta)
    }
}

/// The board after the movement system has run for a frame of `delta`
/// microseconds, where `relocation` is the cell drawn for the food.
pub open spec fn movement_board_after(
    board: BoardModel,
    snake_timer: Timer,
    delta: u64,
    relocation: GridPosition,
) -> BoardModel {
    if move_is_due(board, snake_timer, delta) {
        board.step(relocation)
    } else {
        board
    }
}

/// Whether the movement system ends the run in a frame of `delta`
/// microseconds.
pub open spec fn movement_ends_run(board: BoardModel, snake_timer: Timer, delta: u64) -> bool {
    move_is_due(board, snake_timer, delta) && board.outcome().ends_run()
}

/// Counts the frame on the movement timer of an acting snake and tells
/// whether a move is due; if so the timer starts anew.
fn movement_due(delta: u64, snake_timer: &mut Timer, board: &Board) -> (due: bool)
    ensures
        due == move_is_due(board@, *old(snake_timer), delta),
        *final(snake_timer) == movement_timer_after(board@, *old(snake_timer), delta),
{
    if !board.acting() {
        return false;
    }
    snake_timer.tick(delta);
    if !snake_timer.finished {
        return false;
    }
    snake_timer.reset();
    true
}

/// Runs the movement of the snake for one frame of `delta` microseconds,
/// with `relocation` as the cell drawn for the food in case the snake eats.
/// A resting snake does nothing. For an acting one the frame is counted on
/// the movement timer; when that runs out it starts anew and the snake makes
/// one move, and a move that ends the run fires the event that says so.
/// Returns what the move came to, or nothing if there was none.
pub fn snake_movement_with(
    delta: u64,
    running_end_events: &mut Events<RunningGameEndEvent>,
    snake_timer: &mut Timer,
    board: &mut Board,
    relocation: GridPosition,
) -> (outcome: Option<MoveOutcome>)
    requires
        old(board).wf(),
        old(board)@.acting ==> old(board)@.in_bounds(),
        move_is_due(old(board)@, *old(snake_timer), delta) && old(board)@.outcome()
            == MoveOutcome::Ate ==> old(board)@.free.contains(relocation),
    ensures
        final(board).wf(),
        outcome == if move_is_due(old(board)@, *old(snake_timer), delta) {
            Some(old(board)@.outcome())
        } else {
            None
        },
        *final(snake_timer) == movement_timer_after(old(board)@, *old(snake_timer), delta),
        final(board)@ == movement_board_after(old(board)@, *old(snake_timer), delta, relocation),
        final(running_end_events)@ == with_event(
            old(running_end_events)@,
            movement_ends_run(old(board)@, *old(snake_timer), delta),
            RunningGameEndEvent,
        ),
{
    if !movement_due(delta, snake_timer, board) {
        return None;
    }
    let outcome = board.advance(relocation);
    match outcome {
        MoveOutcome::Collided => running_end_events.send(RunningGameEndEvent),
        MoveOutcome::Filled => running_end_events.send(RunningGameEndEvent),
        _ => {},
    }
    Some(outcome)
}

/// Runs the movement of the snake for one frame of `delta` microseconds,
/// drawing the food's new cell at random among the free cells when the
/// snake eats. What it does is what [`snake_movement_with`] does for the
/// cell on which the food lies afterwards.
pub fn snake_movement_system(
    delta: u64,
    running_end_events: &mut Events<RunningGameEndEvent>,
    snake_timer: &mut Timer,
    board: &mut Board,
) -> (outcome: Option<MoveOutcome>)
    requires
        old(board).wf(),
        old(board)@.acting ==> old(board)@.in_bounds(),
    ensures
        final(board).wf(),
        outcome == if move_is_due(old(board)@, *old(snake_timer), delta) {
            Some(old(board)@.outcome())
        } else {
            None
        },
        outcome == Some(MoveOutcome::Ate) ==> old(board)@.free.contains(final(board)@.food),
        *final(snake_timer) == movement_timer_after(old(board)@, *old(snake_timer), delta),
        final(board)@ == movement_board_after(
            old(board)@,
            *old(snake_timer),
            delta,
            final(board)@.food,
        ),
        final(running_end_events)@ == with_event(
            old(running_end_events)@,
            movement_ends_run(old(board)@, *old(snake_timer), delta),
            RunningGameEndEvent,
        ),
{
    if !movement_due(delta, snake_timer, board) {
        return None;
    }
    let outcome = board.step();
    match outcome {
        MoveOutcome::Collided => running_end_events.send(RunningGameEndEvent),
        MoveOutcome::Filled => running_end_events.send(RunningGameEndEvent),
        _ => {},
    }
    Some(outcome)
}

/// Checks the boundary: if the snake is acting and its head has left the
/// grid, the event that ends the run is fired. Returns whether it was.
pub fn snake_collision_system(
    run_end_events: &mut Events<RunningGameEndEvent>,
    board: &Board,
) -> (fired: bool)
    requires
        board.wf(),
    ensures
        fired == (board@.acting && !board@.in_bounds()),
        final(run_end_events)@ == with_event(old(run_end_events)@, fired, RunningGameEndEvent),
{
    if board.acting() && board.head_out_of_bounds() {
        run_end_events.send(RunningGameEndEvent);
        true
    } else {
        false
    }
}

/// The board with its snake marked as acting or resting, if there is one.
pub open spec fn with_acting(board: Option<BoardModel>, acting: bool) -> Option<BoardModel> {
    match board {
        Some(b) => Some(BoardModel { acting, ..b }),
        None => None,
    }
}

/// Starts the snake: if the listener has not seen some start of the run, the
/// snake, if there is one, is marked as acting.
pub fn process_running_start_events(
    state: &mut RunningGameStartListenerState,
    run_start_events: &Events<RunningGameStartEvent>,
    board: &mut Option<Board>,
)
    ensures
        final(state).event_reader.position() == run_start_events@.len(),
        model_of(*final(board)) == if old(state).event_reader.unread(run_start_events) > 0 {
            with_acting(model_of(*old(board)), true)
        } else {
            model_of(*old(board))
        },
        wf_if_any(*old(board)) ==> wf_if_any(*final(board)),
{
    let unread = state.event_reader.read(run_start_events);
    if unread > 0 {
        match board {
            Some(b) => {
                b.set_acting(true);
            },
            None => {},
        }
    }
}

/// Stops the snake: if the listener has not seen some end of the run, the
/// snake, if there is one, is marked as resting.
pub fn process_running_end_events(
    state: &mut RunningGameEndListenerState,
    running_end_events: &Events<RunningGameEndEvent>,
    board: &mut Option<Board>,
)
    ensures
        final(state).event_reader.position() == running_end_events@.len(),
        model_of(*final(board)) == if old(state).event_reader.unread(running_end_events) > 0 {
            with_acting(model_of(*old(board)), false)
        } else {
            model_of(*old(board))
        },
        wf_if_any(*old(board)) ==> wf_if_any(*final(board)),
{
    let unread = state.event_reader.read(running_end_events);
    if unread > 0 {
        match board {
            Some(b) => {
                b.set_acting(false);
            },
            None => {},
        }
    }
}

/// Spawns the game: if the listener has not seen some start of the pre-game
/// phase, a fresh board takes the place of whatever was there.
pub fn process_pre_start_events(
    state: &mut PreGameStartListenerState,
    pre_start_events: &Events<PreGameStartEvent>,
    grid_size: i32,
    board: &mut Option<Board>,
)
    requires
        3 <= grid_size <= MAX_GRID_SIZE,
    ensures
        final(state).event_reader.position() == pre_start_events@.len(),
        model_of(*final(board)) == if old(state).event_reader.unread(pre_start_events) > 0 {
            Some(spawned(grid_size as int))
        } else {
            model_of(*old(board))
        },
        wf_if_any(*old(board)) ==> wf_if_any(*final(board)),
{
    let unread = state.event_reader.read(pre_start_events);
    if unread > 0 {
        *board = Some(spawn_game_entities(grid_size));
    }
}

/// Readies the movement timer for the run: if the listener has not seen
/// some end of the pre-game phase, the timer is set back to zero.
pub fn process_pre_end_events(
    state: &mut PreGameEndListenerState,
    pre_end_events: &Events<PreGameEndEvent>,
    snake_timer: &mut Timer,
)
    ensures
        final(state).event_reader.position() == pre_end_events@.len(),
        *final(snake_timer) == if old(state).event_reader.unread(pre_end_events) > 0 {
            old(snake_timer).cleared()
        } else {
            *old(snake_timer)
        },
{
    let unread = state.event_reader.read(pre_end_events);
    if unread > 0 {
        snake_timer.reset();
    }
}

/// Despawns the game: if the listener has not seen some end of the
/// post-game phase, the board with its snake and food is dropped.
pub fn process_post_end_events(
    state: &mut PostGameEndListenerState,
    post_end_events: &Events<PostGameEndEvent>,
    board: &mut Option<Board>,
)
    ensures
        final(state).event_reader.position() == post_end_events@.len(),
        model_of(*final(board)) == if old(state).event_reader.unread(post_end_events) > 0 {
            None
        } else {
            model_of(*old(board))
        },
        wf_if_any(*old(board)) ==> wf_if_any(*final(board)),
{
    let unread = state.event_reader.read(post_end_events);
    if unread > 0 {
        *board = None;
    }
}

} // verus!
