//! A game session: the phases, the board and the event channels under one
//! owner, and the frame that runs every system once in a fixed order.

use vstd::prelude::*;
use crate::board::lemma_same_layout;
use crate::board::lemma_spawned_wf;
use crate::board::lemma_step_preserves_wf;
use crate::board::spawned;
use crate::board::Board;
use crate::board::BoardModel;
use crate::board::MoveOutcome;
use crate::events::Events;
use crate::events::PostGameEndEvent;
use crate::events::PostGameStartEvent;
use crate::events::PreGameEndEvent;
use crate::events::PreGameStartEvent;
use crate::events::RunningGameEndEvent;
use crate::events::RunningGameStartEvent;
use crate::game::model_of;
use crate::game::move_is_due;
use crate::game::movement_board_after;
use crate::game::movement_ends_run;
use crate::game::movement_timer_after;
use crate::game::process_post_end_events;
use crate::game::process_pre_end_events;
use crate::game::process_pre_start_events;
use crate::game::process_running_end_events;
use crate::game::process_running_start_events;
use crate::game::snake_collision_system;
use crate::game::snake_movement_system;
use crate::game::snake_movement_with;
use crate::game::with_acting;
use crate::grid::GridPosition;
use crate::grid::MAX_GRID_SIZE;
use crate::phase::PostGameEndListenerState;
use crate::phase::PostGamePhase;
use crate::phase::PreGameEndListenerState;
use crate::phase::PreGamePhase;
use crate::phase::PreGameStartListenerState;
use crate::phase::RunningGameEndListenerState;
use crate::phase::RunningGamePhase;
use crate::phase::RunningGameStartListenerState;
use crate::phase::Timer;
use crate::phase::POST_GAME_DURATION;
use crate::phase::PRE_GAME_DURATION;
use crate::snake::steer;
use crate::snake::DirectionKeys;
use crate::systems::post_game_system;
use crate::systems::post_to_pre_transition_system;
use crate::systems::pre_game_system;
use crate::systems::pre_to_run_transition_system;
use crate::systems::run_to_post_transition_system;

verus! {

/// Number of events sent so far on each channel.
pub struct EventCounts {
    pub pre_start: nat,
    pub pre_end: nat,
    pub running_start: nat,
    pub running_end: nat,
    pub post_start: nat,
    pub post_end: nat,
}

/// Number of events that each listener has gone past on its channel. The
/// three transitions listen to the ends of the phases; the other five
/// listeners act on the board and the movement timer.
pub struct ListenerPositions {
    pub pre_to_run: nat,
    pub run_to_post: nat,
    pub post_to_pre: nat,
    pub pre_start: nat,
    pub pre_end: nat,
    pub running_start: nat,
    pub running_end: nat,
    pub post_end: nat,
}

/// Number of events that a listener at `seen` has yet to see on a channel
/// that has carried `sent` events.
pub open spec fn pending(sent: nat, seen: nat) -> nat {
    if seen <= sent {
        (sent - seen) as nat
    } else {
        0
    }
}

/// One if `fired` holds, else zero.
pub open spec fn count(fired: bool) -> nat {
    if fired {
        1
    } else {
        0
    }
}

/// The mathematical content of a session.
pub struct SessionModel {
    /// Half-extent of the grid on which boards are spawned.
    pub grid_size: int,
    /// The countdown before a run.
    pub pre_game: PreGamePhase,
    /// The run.
    pub running: RunningGamePhase,
    /// The pause after a run.
    pub post_game: PostGamePhase,
    /// The timer that paces the snake's moves.
    pub snake_timer: Timer,
    /// The board, from the start of a countdown to the end of the pause
    /// that follows the run.
    pub board: Option<BoardModel>,
    /// What was sent on the channels.
    pub sent: EventCounts,
    /// How far the listeners have read.
    pub seen: ListenerPositions,
}

impl SessionModel {
    /// The pre-game phase runs for a frame.
    pub open spec fn pre_game_stage(self, delta: u64) -> SessionModel {
        SessionModel {
            pre_game: self.pre_game.after(delta),
            sent: EventCounts {
                pre_start: self.sent.pre_start + count(self.pre_game.starts(delta)),
                pre_end: self.sent.pre_end + count(self.pre_game.ends(delta)),
                ..self.sent
            },
            ..self
        }
    }

    /// The post-game phase runs for a frame.
    pub open spec fn post_game_stage(self, delta: u64) -> SessionModel {
        SessionModel {
            post_game: self.post_game.after(delta),
            sent: EventCounts {
                post_start: self.sent.post_start + count(self.post_game.starts(delta)),
                post_end: self.sent.post_end + count(self.post_game.ends(delta)),
                ..self.sent
            },
            ..self
        }
    }

    /// A start of the pre-game phase spawns a fresh board.
    pub open spec fn spawn_stage(self) -> SessionModel {
        SessionModel {
            board: if pending(self.sent.pre_start, self.seen.pre_start) > 0 {
                Some(spawned(self.grid_size))
            } else {
                self.board
            },
            seen: ListenerPositions { pre_start: self.sent.pre_start, ..self.seen },
            ..self
        }
    }

    /// Each end of the pre-game phase makes the run active and fires one
    /// start of the run.
    pub open spec fn pre_to_run_stage(self) -> SessionModel {
        let n = pending(self.sent.pre_end, self.seen.pre_to_run);
        SessionModel {
            running: RunningGamePhase { active: self.running.active || n > 0 },
            sent: EventCounts { running_start: self.sent.running_start + n, ..self.sent },
            seen: ListenerPositions { pre_to_run: self.sent.pre_end, ..self.seen },
            ..self
        }
    }

    /// An end of the pre-game phase sets the movement timer back to zero.
    pub open spec fn ready_timer_stage(self) -> SessionModel {
        SessionModel {
            snake_timer: if pending(self.sent.pre_end, self.seen.pre_end) > 0 {
                self.snake_timer.cleared()
            } else {
                self.snake_timer
            },
            seen: ListenerPositions { pre_end: self.sent.pre_end, ..self.seen },
            ..self
        }
    }

    /// A start of the run makes the snake act.
    pub open spec fn start_snake_stage(self) -> SessionModel {
        SessionModel {
            board: if pending(self.sent.running_start, self.seen.running_start) > 0 {
                with_acting(self.board, true)
            } else {
                self.board
            },
            seen: ListenerPositions { running_start: self.sent.running_start, ..self.seen },
            ..self
        }
    }

    /// An end of the run makes the run idle and the post-game phase active.
    pub open spec fn run_to_post_stage(self) -> SessionModel {
        let n = pending(self.sent.running_end, self.seen.run_to_post);
        SessionModel {
            running: RunningGamePhase { active: self.running.active && n == 0 },
            post_game: PostGamePhase {
                active: self.post_game.active || n > 0,
                timer: self.post_game.timer,
            },
            seen: ListenerPositions { run_to_post: self.sent.running_end, ..self.seen },
            ..self
        }
    }

    /// An end of the run makes the snake rest.
    pub open spec fn stop_snake_stage(self) -> SessionModel {
        SessionModel {
            board: if pending(self.sent.running_end, self.seen.running_end) > 0 {
                with_acting(self.board, false)
            } else {
                self.board
            },
            seen: ListenerPositions { running_end: self.sent.running_end, ..self.seen },
            ..self
        }
    }

    /// An end of the post-game phase makes the pre-game phase active.
    pub open spec fn post_to_pre_stage(self) -> SessionModel {
        let n = pending(self.sent.post_end, self.seen.post_to_pre);
        SessionModel {
            pre_game: PreGamePhase {
                active: self.pre_game.active || n > 0,
                timer: self.pre_game.timer,
            },
            seen: ListenerPositions { post_to_pre: self.sent.post_end, ..self.seen },
            ..self
        }
    }

    /// An end of the post-game phase despawns the board.
    pub open spec fn despawn_stage(self) -> SessionModel {
        SessionModel {
            board: if pending(self.sent.post_end, self.seen.post_end) > 0 {
                None
            } else {
                self.board
            },
            seen: ListenerPositions { post_end: self.sent.post_end, ..self.seen },
            ..self
        }
    }

    /// The first part of a frame: the two timed phases run, then every
    /// listener takes in what was fired.
    pub open spec fn before_movement(self, delta: u64) -> SessionModel {
        self.pre_game_stage(delta).post_game_stage(
            delta,
        ).spawn_stage().pre_to_run_stage().ready_timer_stage().start_snake_stage().run_to_post_stage().stop_snake_stage().post_to_pre_stage().despawn_stage()
    }

    /// The snake moves if the frame takes its timer to the end.
    pub open spec fn movement_stage(self, delta: u64, relocation: GridPosition) -> SessionModel {
        match self.board {
            Some(b) => SessionModel {
                snake_timer: movement_timer_after(b, self.snake_timer, delta),
                board: Some(movement_board_after(b, self.snake_timer, delta, relocation)),
                sent: EventCounts {
                    running_end: self.sent.running_end + count(
                        movement_ends_run(b, self.snake_timer, delta),
                    ),
                    ..self.sent
                },
                ..self
            },
            None => self,
        }
    }

    /// The pressed signals set the snake's pending direction.
    pub open spec fn input_stage(self, keys: DirectionKeys) -> SessionModel {
        match self.board {
            Some(b) => SessionModel {
                board: Some(
                    BoardModel { direction: steer(b.direction, b.last_direction, keys), ..b },
                ),
                ..self
            },
            None => self,
        }
    }

    /// An acting snake whose head has left the grid ends the run.
    pub open spec fn collision_stage(self) -> SessionModel {
        match self.board {
            Some(b) => SessionModel {
                sent: EventCounts {
                    running_end: self.sent.running_end + count(b.acting && !b.in_bounds()),
                    ..self.sent
                },
                ..self
            },
            None => self,
        }
    }

    /// One frame of `delta` microseconds with the signals `keys`, where
    /// `relocation` is the cell drawn for the food in case the snake eats:
    /// phases first, then the listeners, then movement, input and the check
    /// of the boundary.
    pub open spec fn frame(
        self,
        delta: u64,
        keys: DirectionKeys,
        relocation: GridPosition,
    ) -> SessionModel {
        self.before_movement(delta).movement_stage(delta, relocation).input_stage(
            keys,
        ).collision_stage()
    }

    /// Whether `relocation` can serve as the food's new cell in the coming
    /// frame: if the snake eats in it, the cell must be free at that moment.
    pub open spec fn relocation_fits(self, delta: u64, relocation: GridPosition) -> bool {
        let s = self.before_movement(delta);
        match s.board {
            Some(b) => move_is_due(b, s.snake_timer, delta) && b.outcome() == MoveOutcome::Ate
                ==> b.free.contains(relocation),
            None => true,
        }
    }

    /// The cell of the food, or the origin while there is no board.
    pub open spec fn food(self) -> GridPosition {
        match self.board {
            Some(b) => b.food,
            None => GridPosition { x: 0, y: 0 },
        }
    }

    /// What the snake's move comes to in a frame of `delta` microseconds, if
    /// it makes one.
    pub open spec fn move_outcome(self, delta: u64) -> Option<MoveOutcome> {
        let s = self.before_movement(delta);
        match s.board {
            Some(b) => if move_is_due(b, s.snake_timer, delta) {
                Some(b.outcome())
            } else {
                None
            },
            None => None,
        }
    }

    /// What a frame of `delta` microseconds with the signals `keys` reports.
    pub open spec fn report(self, delta: u64, keys: DirectionKeys) -> FrameReport {
        let after = self.frame(delta, keys, GridPosition { x: 0, y: 0 });
        FrameReport {
            spawned: after.sent.pre_start > self.sent.pre_start,
            despawned: after.sent.post_end > self.sent.post_end,
            outcome: self.move_outcome(delta),
            run_ended: after.sent.running_end > self.sent.running_end,
        }
    }

    /// Number of ends of the run that the listeners have yet to see.
    pub open spec fn run_end_pending(self) -> nat {
        pending(self.sent.running_end, self.seen.run_to_post)
    }

    /// The session as it begins: the pre-game phase active with nothing
    /// counted, no board, and silent channels.
    pub open spec fn initial(grid_size: int, movement_period: u64) -> SessionModel {
        SessionModel {
            grid_size,
            pre_game: PreGamePhase {
                active: true,
                timer: Timer { elapsed: 0, duration: PRE_GAME_DURATION, finished: false },
            },
            running: RunningGamePhase { active: false },
            post_game: PostGamePhase {
                active: false,
                timer: Timer { elapsed: 0, duration: POST_GAME_DURATION, finished: false },
            },
            snake_timer: Timer { elapsed: 0, duration: movement_period, finished: false },
            board: None,
            sent: EventCounts {
                pre_start: 0,
                pre_end: 0,
                running_start: 0,
                running_end: 0,
                post_start: 0,
                post_end: 0,
            },
            seen: ListenerPositions {
                pre_to_run: 0,
                run_to_post: 0,
                post_to_pre: 0,
                pre_start: 0,
                pre_end: 0,
                running_start: 0,
                running_end: 0,
                post_end: 0,
            },
        }
    }

    /// Every listener but those to the end of the run has seen all that was
    /// sent; the two listeners to the end of the run stand at the same place.
    pub open spec fn listeners_in_step(self) -> bool {
        &&& self.seen.pre_start == self.sent.pre_start
        &&& self.seen.pre_to_run == self.sent.pre_end
        &&& self.seen.pre_end == self.sent.pre_end
        &&& self.seen.running_start == self.sent.running_start
        &&& self.seen.post_to_pre == self.sent.post_end
        &&& self.seen.post_end == self.sent.post_end
        &&& self.seen.run_to_post == self.seen.running_end
        &&& self.seen.running_end <= self.sent.running_end
    }

    /// The pre-game phase is the active one: the countdown runs; the board
    /// is there exactly once the countdown has begun, with a resting snake
    /// on the grid.
    pub open spec fn in_pre_game(self) -> bool {
        &&& self.pre_game.active
        &&& !self.running.active
        &&& !self.post_game.active
        &&& self.post_game.timer.elapsed == 0
        &&& self.run_end_pending() == 0
        &&& (self.pre_game.timer.elapsed == 0 <==> self.board is None)
        &&& match self.board {
            Some(b) => !b.acting && b.in_bounds(),
            None => true,
        }
    }

    /// The run is the active phase: the snake acts, and its head is on the
    /// grid unless an end of the run is already on its way.
    pub open spec fn in_running(self) -> bool {
        &&& !self.pre_game.active
        &&& self.running.active
        &&& !self.post_game.active
        &&& self.pre_game.timer.elapsed == 0
        &&& self.post_game.timer.elapsed == 0
        &&& match self.board {
            Some(b) => b.acting && (self.run_end_pending() == 0 ==> b.in_bounds()),
            None => false,
        }
    }

    /// The post-game phase is the active one: the pause runs, and the snake
    /// rests where the run left it.
    pub open spec fn in_post_game(self) -> bool {
        &&& !self.pre_game.active
        &&& !self.running.active
        &&& self.post_game.active
        &&& self.pre_game.timer.elapsed == 0
        &&& self.run_end_pending() == 0
        &&& match self.board {
            Some(b) => !b.acting,
            None => false,
        }
    }

    /// The invariant of a session between frames: the grid has a valid size;
    /// the board, if there is one, meets its invariant on that grid; the
    /// timers of the timed phases have their set durations and have not run
    /// out; the listeners are in step with their channels; and exactly one
    /// phase is active, with the board in the state that goes with it.
    pub open spec fn wf(self) -> bool {
        &&& 3 <= self.grid_size <= MAX_GRID_SIZE
        &&& match self.board {
            Some(b) => b.wf() && b.grid_size == self.grid_size,
            None => true,
        }
        &&& self.pre_game.timer.duration == PRE_GAME_DURATION
        &&& self.pre_game.timer.elapsed < PRE_GAME_DURATION
        &&& !self.pre_game.timer.finished
        &&& self.post_game.timer.duration == POST_GAME_DURATION
        &&& self.post_game.timer.elapsed < POST_GAME_DURATION
        &&& !self.post_game.timer.finished
        &&& self.listeners_in_step()
        &&& (self.in_pre_game() || self.in_running() || self.in_post_game())
    }
}

/// Marking the snake as acting or resting keeps the board's invariant and
/// the place of its head.
proof fn lemma_with_acting(board: Option<BoardModel>, acting: bool)
    ensures
        match (board, with_acting(board, acting)) {
            (Some(b), Some(a)) => a.wf() == b.wf() && a.in_bounds() == b.in_bounds()
                && a.grid_size == b.grid_size && a.acting == acting,
            (None, None) => true,
            _ => false,
        },
{
    match board {
        Some(b) => {
            lemma_same_layout(b, BoardModel { acting, ..b });
        },
        None => {},
    }
}

/// Between frames exactly one of the three phases is active.
pub proof fn lemma_one_phase_active(s: SessionModel)
    requires
        s.wf(),
    ensures
        count(s.pre_game.active) + count(s.running.active) + count(s.post_game.active) == 1,
{
}

/// After the phases and the listeners have run, the session meets its
/// invariant with nothing left unseen on any channel; so a snake that acts
/// has its head on the grid.
pub proof fn lemma_before_movement(s: SessionModel, delta: u64)
    requires
        s.wf(),
    ensures
        s.before_movement(delta).wf(),
        s.before_movement(delta).seen.running_end == s.before_movement(delta).sent.running_end,
        s.before_movement(delta).grid_size == s.grid_size,
        match s.before_movement(delta).board {
            Some(b) => b.acting ==> b.in_bounds(),
            None => true,
        },
{
    let s1 = s.pre_game_stage(delta);
    let s2 = s1.post_game_stage(delta);
    let s3 = s2.spawn_stage();
    let s4 = s3.pre_to_run_stage();
    let s5 = s4.ready_timer_stage();
    let s6 = s5.start_snake_stage();
    let s7 = s6.run_to_post_stage();
    let s8 = s7.stop_snake_stage();
    let s9 = s8.post_to_pre_stage();
    let s10 = s9.despawn_stage();
    assert(s10 == s.before_movement(delta));
    lemma_spawned_wf(s.grid_size);
    lemma_with_acting(s5.board, true);
    lemma_with_acting(s7.board, false);
}

/// Movement, input and the check of the boundary keep the invariant, when
/// they start from a session in which nothing is left unseen.
pub proof fn lemma_after_listeners(
    t: SessionModel,
    delta: u64,
    keys: DirectionKeys,
    relocation: GridPosition,
)
    requires
        t.wf(),
        t.seen.running_end == t.sent.running_end,
        match t.board {
            Some(b) => move_is_due(b, t.snake_timer, delta) && b.outcome() == MoveOutcome::Ate
                ==> b.free.contains(relocation),
            None => true,
        },
    ensures
        t.movement_stage(delta, relocation).input_stage(keys).collision_stage().wf(),
{
    let u = t.movement_stage(delta, relocation);
    let v = u.input_stage(keys);
    let w = v.collision_stage();
    match t.board {
        Some(b) => {
            if move_is_due(b, t.snake_timer, delta) {
                lemma_step_preserves_wf(b, relocation);
                lemma_same_layout(b, b.after_halt());
            }
            let moved = movement_board_after(b, t.snake_timer, delta, relocation);
            assert(moved.acting == b.acting);
            assert(moved.grid_size == b.grid_size);
            let steered = BoardModel {
                direction: steer(moved.direction, moved.last_direction, keys),
                ..moved
            };
            lemma_same_layout(moved, steered);
            assert(w.wf());
        },
        None => {
            assert(w.wf());
        },
    }
}

/// A frame keeps the session's invariant.
pub proof fn lemma_frame_keeps_wf(
    s: SessionModel,
    delta: u64,
    keys: DirectionKeys,
    relocation: GridPosition,
)
    requires
        s.wf(),
        s.relocation_fits(delta, relocation),
    ensures
        s.frame(delta, keys, relocation).wf(),
{
    lemma_before_movement(s, delta);
    lemma_after_listeners(s.before_movement(delta), delta, keys, relocation);
}

/// The session as it begins meets the invariant.
pub proof fn lemma_initial_wf(grid_size: int, movement_period: u64)
    requires
        3 <= grid_size <= MAX_GRID_SIZE,
    ensures
        SessionModel::initial(grid_size, movement_period).wf(),
        SessionModel::initial(grid_size, movement_period).in_pre_game(),
{
}

/// What a frame did, for whoever shows the game.
#[derive(PartialEq, Eq, Structural, Copy, Clone, Debug)]
pub struct FrameReport {
    /// The pre-game phase began to count in this frame, which spawns a
    /// fresh board.
    pub spawned: bool,
    /// The post-game phase came to its end in this frame, which despawns
    /// the board.
    pub despawned: bool,
    /// What the snake's move came to, if it made one.
    pub outcome: Option<MoveOutcome>,
    /// An end of the run was fired in this frame.
    pub run_ended: bool,
}

/// A game session: the three phases, the movement timer, the board while
/// there is one, the six event channels and the eight listeners.
pub struct GameSession {
    grid_size: i32,
    pre_game: PreGamePhase,
    running: RunningGamePhase,
    post_game: PostGamePhase,
    snake_timer: Timer,
    board: Option<Board>,
    pre_start_events: Events<PreGameStartEvent>,
    pre_end_events: Events<PreGameEndEvent>,
    running_start_events: Events<RunningGameStartEvent>,
    running_end_events: Events<RunningGameEndEvent>,
    post_start_events: Events<PostGameStartEvent>,
    post_end_events: Events<PostGameEndEvent>,
    pre_to_run: PreGameEndListenerState,
    run_to_post: RunningGameEndListenerState,
    post_to_pre: PostGameEndListenerState,
    pre_start_listener: PreGameStartListenerState,
    pre_end_listener: PreGameEndListenerState,
    running_start_listener: RunningGameStartListenerState,
    running_end_listener: RunningGameEndListenerState,
    post_end_listener: PostGameEndListenerState,
}

impl View for GameSession {
    type V = SessionModel;

    closed spec fn view(&self) -> SessionModel {
        SessionModel {
            grid_size: self.grid_size as int,
            pre_game: self.pre_game,
            running: self.running,
            post_game: self.post_game,
            snake_timer: self.snake_timer,
            board: model_of(self.board),
            sent: EventCounts {
                pre_start: self.pre_start_events@.len(),
                pre_end: self.pre_end_events@.len(),
                running_start: self.running_start_events@.len(),
                running_end: self.running_end_events@.len(),
                post_start: self.post_start_events@.len(),
                post_end: self.post_end_events@.len(),
            },
            seen: ListenerPositions {
                pre_to_run: self.pre_to_run.event_reader.position(),
                run_to_post: self.run_to_post.event_reader.position(),
                post_to_pre: self.post_to_pre.event_reader.position(),
                pre_start: self.pre_start_listener.event_reader.position(),
                pre_end: self.pre_end_listener.event_reader.position(),
                running_start: self.running_start_listener.event_reader.position(),
                running_end: self.running_end_listener.event_reader.position(),
                post_end: self.post_end_listener.event_reader.position(),
            },
        }
    }
}

impl GameSession {
    /// The set of free cells of the board, if there is one, is kept without
    /// repetition.
    pub closed spec fn rep_wf(&self) -> bool {
        match self.board {
            Some(b) => b.rep_wf(),
            None => true,
        }
    }

    /// The session's invariant.
    pub open spec fn wf(&self) -> bool {
        self.rep_wf() && self@.wf()
    }

    /// A session on a grid of half-extent `grid_size` whose snake moves once
    /// every `movement_period` microseconds, or nothing if the grid is too
    /// small for the spawn or too large to hold.
    pub fn new(grid_size: i32, movement_period: u64) -> (session: Option<GameSession>)
        ensures
            session is Some <==> 3 <= grid_size <= MAX_GRID_SIZE,
            match session {
                Some(s) => s.wf() && s@ == SessionModel::initial(grid_size as int, movement_period),
                None => true,
            },
    {
        if grid_size < 3 || grid_size > MAX_GRID_SIZE {
            return None;
        }
        let session = GameSession {
            grid_size,
            pre_game: PreGamePhase::new(true),
            running: RunningGamePhase::new(false),
            post_game: PostGamePhase::new(false),
            snake_timer: Timer::from_micros(movement_period),
            board: None,
            pre_start_events: Events::new(),
            pre_end_events: Events::new(),
            running_start_events: Events::new(),
            running_end_events: Events::new(),
            post_start_events: Events::new(),
            post_end_events: Events::new(),
            pre_to_run: PreGameEndListenerState::default(),
            run_to_post: RunningGameEndListenerState::default(),
            post_to_pre: PostGameEndListenerState::default(),
            pre_start_listener: PreGameStartListenerState::default(),
            pre_end_listener: PreGameEndListenerState::default(),
            running_start_listener: RunningGameStartListenerState::default(),
            running_end_listener: RunningGameEndListenerState::default(),
            post_end_listener: PostGameEndListenerState::default(),
        };
        proof {
            lemma_initial_wf(grid_size as int, movement_period);
        }
        Some(session)
    }

    /// Half-extent of the grid.
    pub fn grid_size(&self) -> (g: i32)
        ensures
            g == self@.grid_size,
    {
        self.grid_size
    }

    /// The pre-game phase.
    pub fn pre_game(&self) -> (phase: PreGamePhase)
        ensures
            phase == self@.pre_game,
    {
        self.pre_game
    }

    /// The running phase.
    pub fn running(&self) -> (phase: RunningGamePhase)
        ensures
            phase == self@.running,
    {
        self.running
    }

    /// The post-game phase.
    pub fn post_game(&self) -> (phase: PostGamePhase)
        ensures
            phase == self@.post_game,
    {
        self.post_game
    }

    /// The timer that paces the snake's moves.
    pub fn snake_timer(&self) -> (timer: Timer)
        ensures
            timer == self@.snake_timer,
    {
        self.snake_timer
    }

    /// The board, while there is one.
    pub fn board(&self) -> (board: Option<&Board>)
        ensures
            match board {
                Some(b) => self@.board == Some(b@) && (self.wf() ==> b.wf()),
                None => self@.board is None,
            },
    {
        self.board.as_ref()
    }

    /// The first part of a frame: the two timed phases run, then every
    /// listener takes in what was fired.
    fn run_phases(&mut self, delta: u64)
        requires
            old(self).wf(),
        ensures
            final(self)@ == old(self)@.before_movement(delta),
            final(self).wf(),
    {
        pre_game_system(
            delta,
            &mut self.pre_start_events,
            &mut self.pre_end_events,
            &mut self.pre_game,
        );
        assert(self@ == old(self)@.pre_game_stage(delta));
        let ghost s1 = self@;
        post_game_system(
            delta,
            &mut self.post_start_events,
            &mut self.post_end_events,
            &mut self.post_game,
        );
        assert(self@ == s1.post_game_stage(delta));
        let ghost s2 = self@;
        process_pre_start_events(
            &mut self.pre_start_listener,
            &self.pre_start_events,
            self.grid_size,
            &mut self.board,
        );
        assert(self@ == s2.spawn_stage());
        let ghost s3 = self@;
        pre_to_run_transition_system(
            &mut self.pre_to_run,
            &self.pre_end_events,
            &mut self.running,
            &mut self.running_start_events,
        );
        assert(self@ == s3.pre_to_run_stage());
        let ghost s4 = self@;
        process_pre_end_events(
            &mut self.pre_end_listener,
            &self.pre_end_events,
            &mut self.snake_timer,
        );
        assert(self@ == s4.ready_timer_stage());
        let ghost s5 = self@;
        process_running_start_events(
            &mut self.running_start_listener,
            &self.running_start_events,
            &mut self.board,
        );
        assert(self@ == s5.start_snake_stage());
        let ghost s6 = self@;
        run_to_post_transition_system(
            &mut self.run_to_post,
            &self.running_end_events,
            &mut self.post_game,
            &mut self.running,
        );
        assert(self@ == s6.run_to_post_stage());
        let ghost s7 = self@;
        process_running_end_events(
            &mut self.running_end_listener,
            &self.running_end_events,
            &mut self.board,
        );
        assert(self@ == s7.stop_snake_stage());
        let ghost s8 = self@;
        post_to_pre_transition_system(
            &mut self.post_to_pre,
            &self.post_end_events,
            &mut self.pre_game,
        );
        assert(self@ == s8.post_to_pre_stage());
        let ghost s9 = self@;
        process_post_end_events(&mut self.post_end_listener, &self.post_end_events, &mut self.board);
        assert(self@ == s9.despawn_stage());
        proof {
            lemma_before_movement(old(self)@, delta);
        }
    }

    /// The second part of a frame, with `relocation` as the cell drawn for
    /// the food: movement, input and the check of the boundary.
    fn run_board_with(
        &mut self,
        delta: u64,
        keys: DirectionKeys,
        relocation: GridPosition,
    ) -> (outcome: Option<MoveOutcome>)
        requires
            old(self).wf(),
            old(self)@.seen.running_end == old(self)@.sent.running_end,
            match old(self)@.board {
                Some(b) => move_is_due(b, old(self)@.snake_timer, delta) && b.outcome()
                    == MoveOutcome::Ate ==> b.free.contains(relocation),
                None => true,
            },
        ensures
            final(self)@ == old(self)@.movement_stage(delta, relocation).input_stage(
                keys,
            ).collision_stage(),
            final(self).wf(),
            outcome == match old(self)@.board {
                Some(b) => if move_is_due(b, old(self)@.snake_timer, delta) {
                    Some(b.outcome())
                } else {
                    None
                },
                None => None,
            },
    {
        proof {
            lemma_after_listeners(old(self)@, delta, keys, relocation);
        }
        match &mut self.board {
            Some(board) => {
                let outcome = snake_movement_with(
                    delta,
                    &mut self.running_end_events,
                    &mut self.snake_timer,
                    board,
                    relocation,
                );
                board.steer(keys);
                snake_collision_system(&mut self.running_end_events, board);
                outcome
            },
            None => None,
        }
    }

    /// The second part of a frame, with the food's new cell drawn at
    /// random: movement, input and the check of the boundary.
    fn run_board(&mut self, delta: u64, keys: DirectionKeys) -> (outcome: Option<MoveOutcome>)
        requires
            old(self).wf(),
            old(self)@.seen.running_end == old(self)@.sent.running_end,
        ensures
            final(self)@ == old(self)@.movement_stage(delta, final(self)@.food()).input_stage(
                keys,
            ).collision_stage(),
            match old(self)@.board {
                Some(b) => move_is_due(b, old(self)@.snake_timer, delta) && b.outcome()
                    == MoveOutcome::Ate ==> b.free.contains(final(self)@.food()),
                None => true,
            },
            final(self).wf(),
            outcome == match old(self)@.board {
                Some(b) => if move_is_due(b, old(self)@.snake_timer, delta) {
                    Some(b.outcome())
                } else {
                    None
                },
                None => None,
            },
    {
        let outcome = match &mut self.board {
            Some(board) => {
                let outcome = snake_movement_system(
                    delta,
                    &mut self.running_end_events,
                    &mut self.snake_timer,
                    board,
                );
                board.steer(keys);
                snake_collision_system(&mut self.running_end_events, board);
                outcome
            },
            None => None,
        };
        proof {
            lemma_after_listeners(old(self)@, delta, keys, self@.food());
        }
        outcome
    }

    /// Runs one frame of `delta` microseconds with the signals `keys`, with
    /// `relocation` as the cell drawn for the food in case the snake eats.
    /// The systems run in a fixed order: the two timed phases, the
    /// listeners, the movement of the snake, the input, and the check of
    /// the boundary.
    pub fn tick_with(
        &mut self,
        delta: u64,
        keys: DirectionKeys,
        relocation: GridPosition,
    ) -> (report: FrameReport)
        requires
            old(self).wf(),
            old(self)@.relocation_fits(delta, relocation),
        ensures
            final(self).wf(),
            final(self)@ == old(self)@.frame(delta, keys, relocation),
            report == old(self)@.report(delta, keys),
    {
        let pre_starts = self.pre_start_events.len();
        let post_ends = self.post_end_events.len();
        let run_ends = self.running_end_events.len();
        self.run_phases(delta);
        let outcome = self.run_board_with(delta, keys, relocation);
        FrameReport {
            spawned: self.pre_start_events.len() > pre_starts,
            despawned: self.post_end_events.len() > post_ends,
            outcome,
            run_ended: self.running_end_events.len() > run_ends,
        }
    }

    /// Runs one frame of `delta` microseconds with the signals `keys`,
    /// drawing the food's new cell at random among the free cells when the
    /// snake eats. The frame is the one that [`GameSession::tick_with`]
    /// runs for the cell on which the food lies afterwards.
    pub fn tick(&mut self, delta: u64, keys: DirectionKeys) -> (report: FrameReport)
        requires
            old(self).wf(),
        ensures
            final(self).wf(),
            old(self)@.relocation_fits(delta, final(self)@.food()),
            final(self)@ == old(self)@.frame(delta, keys, final(self)@.food()),
            report == old(self)@.report(delta, keys),
    {
        let pre_starts = self.pre_start_events.len();
        let post_ends = self.post_end_events.len();
        let run_ends = self.running_end_events.len();
        self.run_phases(delta);
        let outcome = self.run_board(delta, keys);
        FrameReport {
            spawned: self.pre_start_events.len() > pre_starts,
            despawned: self.post_end_events.len() > post_ends,
            outcome,
            run_ended: self.running_end_events.len() > run_ends,
        }
    }
}

} // verus!
