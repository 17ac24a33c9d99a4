//! What holds of the cycle of phases over whole runs of frames.

use vstd::prelude::*;
use crate::board::MoveOutcome;
use crate::grid::GridPosition;
use crate::phase::POST_GAME_DURATION;
use crate::phase::PRE_GAME_DURATION;
use crate::session::count;
use crate::session::lemma_before_movement;
use crate::session::lemma_frame_keeps_wf;
use crate::session::SessionModel;
use crate::snake::DirectionKeys;

verus! {

/// What one frame is fed: the time that went by, the signals pressed, and
/// the cell drawn for the food.
pub struct FrameInput {
    pub delta: u64,
    pub keys: DirectionKeys,
    pub relocation: GridPosition,
}

/// The time that a run of frames takes, in microseconds.
pub open spec fn total_time(frames: Seq<FrameInput>) -> int
    decreases frames.len(),
{
    if frames.len() == 0 {
        0
    } else {
        total_time(frames.drop_last()) + frames.last().delta
    }
}

/// The session after a run of frames.
pub open spec fn run(s: SessionModel, frames: Seq<FrameInput>) -> SessionModel
    decreases frames.len(),
{
    if frames.len() == 0 {
        s
    } else {
        let f = frames.last();
        run(s, frames.drop_last()).frame(f.delta, f.keys, f.relocation)
    }
}

/// Whether in each frame of the run the cell drawn for the food is free at
/// the moment the snake eats, if it does.
pub open spec fn draws_fit(s: SessionModel, frames: Seq<FrameInput>) -> bool
    decreases frames.len(),
{
    if frames.len() == 0 {
        true
    } else {
        let f = frames.last();
        draws_fit(s, frames.drop_last()) && run(s, frames.drop_last()).relocation_fits(
            f.delta,
            f.relocation,
        )
    }
}

/// A run of frames keeps the session's invariant.
pub proof fn lemma_run_keeps_wf(s: SessionModel, frames: Seq<FrameInput>)
    requires
        s.wf(),
        draws_fit(s, frames),
    ensures
        run(s, frames).wf(),
    decreases frames.len(),
{
    if frames.len() > 0 {
        let f = frames.last();
        lemma_run_keeps_wf(s, frames.drop_last());
        lemma_frame_keeps_wf(run(s, frames.drop_last()), f.delta, f.keys, f.relocation);
    }
}

/// A frame that does not take the countdown to its end leaves the game in
/// the pre-game phase with the frame counted. It fires no end of that phase
/// and no start of a run, and it fires the start of the phase, which spawns
/// the board, exactly if the countdown had counted nothing and time moved.
pub proof fn lemma_countdown_frame(
    s: SessionModel,
    delta: u64,
    keys: DirectionKeys,
    relocation: GridPosition,
)
    requires
        s.wf(),
        s.in_pre_game(),
        s.pre_game.timer.elapsed + delta < PRE_GAME_DURATION,
    ensures
        s.frame(delta, keys, relocation).wf(),
        s.frame(delta, keys, relocation).in_pre_game(),
        s.frame(delta, keys, relocation).pre_game.timer.elapsed == s.pre_game.timer.elapsed
            + delta,
        s.frame(delta, keys, relocation).sent.pre_start == s.sent.pre_start + count(
            s.pre_game.timer.elapsed == 0 && delta != 0,
        ),
        s.frame(delta, keys, relocation).sent.pre_end == s.sent.pre_end,
        s.frame(delta, keys, relocation).sent.running_start == s.sent.running_start,
        s.frame(delta, keys, relocation).sent.running_end == s.sent.running_end,
        s.frame(delta, keys, relocation).sent.post_start == s.sent.post_start,
        s.frame(delta, keys, relocation).sent.post_end == s.sent.post_end,
{
    lemma_before_movement(s, delta);
    let t = s.before_movement(delta);
    assert(t.in_pre_game());
    assert(s.relocation_fits(delta, relocation));
    lemma_frame_keeps_wf(s, delta, keys, relocation);
}

/// The frame that takes the countdown to its end fires exactly one end of
/// the pre-game phase and exactly one start of a run, and leaves the game in
/// the running phase. It also fires the start of the pre-game phase if the
/// countdown had counted nothing before.
pub proof fn lemma_countdown_expiry(
    s: SessionModel,
    delta: u64,
    keys: DirectionKeys,
    relocation: GridPosition,
)
    requires
        s.wf(),
        s.in_pre_game(),
        s.pre_game.timer.elapsed + delta >= PRE_GAME_DURATION,
        s.relocation_fits(delta, relocation),
    ensures
        s.frame(delta, keys, relocation).wf(),
        s.frame(delta, keys, relocation).in_running(),
        s.frame(delta, keys, relocation).sent.pre_start == s.sent.pre_start + count(
            s.pre_game.timer.elapsed == 0,
        ),
        s.frame(delta, keys, relocation).sent.pre_end == s.sent.pre_end + 1,
        s.frame(delta, keys, relocation).sent.running_start == s.sent.running_start + 1,
        s.frame(delta, keys, relocation).sent.post_start == s.sent.post_start,
        s.frame(delta, keys, relocation).sent.post_end == s.sent.post_end,
{
    lemma_before_movement(s, delta);
    let t = s.before_movement(delta);
    assert(t.in_running());
    lemma_frame_keeps_wf(s, delta, keys, relocation);
}

/// While no end of the run is on its way, a frame leaves the game in the
/// running phase and fires nothing on the channels of the two timed phases
/// nor a start of a run.
pub proof fn lemma_running_frame(
    s: SessionModel,
    delta: u64,
    keys: DirectionKeys,
    relocation: GridPosition,
)
    requires
        s.wf(),
        s.in_running(),
        s.run_end_pending() == 0,
        s.relocation_fits(delta, relocation),
    ensures
        s.frame(delta, keys, relocation).wf(),
        s.frame(delta, keys, relocation).in_running(),
        s.frame(delta, keys, relocation).sent.pre_start == s.sent.pre_start,
        s.frame(delta, keys, relocation).sent.pre_end == s.sent.pre_end,
        s.frame(delta, keys, relocation).sent.running_start == s.sent.running_start,
        s.frame(delta, keys, relocation).sent.post_start == s.sent.post_start,
        s.frame(delta, keys, relocation).sent.post_end == s.sent.post_end,
        s.frame(delta, keys, relocation).sent.running_end <= s.sent.running_end + 1,
{
    lemma_before_movement(s, delta);
    let t = s.before_movement(delta);
    assert(t.in_running());
    lemma_frame_keeps_wf(s, delta, keys, relocation);
}

/// A move that runs into the body during the run fires exactly one end of
/// the run in its frame, and moves no segment: arena, body order, food and
/// free cells are after the frame what they were before it.
pub proof fn lemma_collision_frame(
    s: SessionModel,
    delta: u64,
    keys: DirectionKeys,
    relocation: GridPosition,
)
    requires
        s.wf(),
        s.in_running(),
        s.run_end_pending() == 0,
        s.move_outcome(delta) == Some(MoveOutcome::Collided),
    ensures
        s.frame(delta, keys, relocation).sent.running_end == s.sent.running_end + 1,
        s.frame(delta, keys, relocation).run_end_pending() == 1,
        match (s.board, s.frame(delta, keys, relocation).board) {
            (Some(before), Some(after)) => after.segments == before.segments && after.body
                == before.body && after.food == before.food && after.free == before.free,
            _ => false,
        },
{
    lemma_before_movement(s, delta);
    let t = s.before_movement(delta);
    assert(t.in_running());
    assert(t.board == s.board);
}

/// Once an end of the run is on its way, the next frame hands the game to
/// the post-game phase: the run goes idle, the snake rests and moves no
/// more, and no further event is fired in that frame unless the pause is
/// over at once.
pub proof fn lemma_run_end_frame(
    s: SessionModel,
    delta: u64,
    keys: DirectionKeys,
    relocation: GridPosition,
)
    requires
        s.wf(),
        s.in_running(),
        s.run_end_pending() > 0,
    ensures
        s.frame(delta, keys, relocation).wf(),
        s.frame(delta, keys, relocation).in_post_game(),
        s.frame(delta, keys, relocation).post_game.timer.elapsed == 0,
        s.frame(delta, keys, relocation).sent == s.sent,
        s.frame(delta, keys, relocation).run_end_pending() == 0,
{
    lemma_before_movement(s, delta);
    let t = s.before_movement(delta);
    assert(t.in_post_game());
    assert(s.relocation_fits(delta, relocation));
    lemma_frame_keeps_wf(s, delta, keys, relocation);
}

/// A frame that does not take the pause to its end leaves the game in the
/// post-game phase with the frame counted. It fires the start of the phase
/// exactly if the pause had counted nothing and time moved, and nothing
/// else.
pub proof fn lemma_pause_frame(
    s: SessionModel,
    delta: u64,
    keys: DirectionKeys,
    relocation: GridPosition,
)
    requires
        s.wf(),
        s.in_post_game(),
        s.post_game.timer.elapsed + delta < POST_GAME_DURATION,
    ensures
        s.frame(delta, keys, relocation).wf(),
        s.frame(delta, keys, relocation).in_post_game(),
        s.frame(delta, keys, relocation).post_game.timer.elapsed == s.post_game.timer.elapsed
            + delta,
        s.frame(delta, keys, relocation).sent.post_start == s.sent.post_start + count(
            s.post_game.timer.elapsed == 0 && delta != 0,
        ),
        s.frame(delta, keys, relocation).sent.post_end == s.sent.post_end,
        s.frame(delta, keys, relocation).sent.pre_start == s.sent.pre_start,
        s.frame(delta, keys, relocation).sent.pre_end == s.sent.pre_end,
        s.frame(delta, keys, relocation).sent.running_start == s.sent.running_start,
        s.frame(delta, keys, relocation).sent.running_end == s.sent.running_end,
{
    lemma_before_movement(s, delta);
    let t = s.before_movement(delta);
    assert(t.in_post_game());
    assert(s.relocation_fits(delta, relocation));
    lemma_frame_keeps_wf(s, delta, keys, relocation);
}

/// The frame that takes the pause to its end fires exactly one end of the
/// post-game phase, despawns the board, and leaves the game in the pre-game
/// phase with nothing counted.
pub proof fn lemma_pause_expiry(
    s: SessionModel,
    delta: u64,
    keys: DirectionKeys,
    relocation: GridPosition,
)
    requires
        s.wf(),
        s.in_post_game(),
        s.post_game.timer.elapsed + delta >= POST_GAME_DURATION,
    ensures
        s.frame(delta, keys, relocation).wf(),
        s.frame(delta, keys, relocation).in_pre_game(),
        s.frame(delta, keys, relocation).pre_game.timer.elapsed == 0,
        s.frame(delta, keys, relocation).board is None,
        s.frame(delta, keys, relocation).sent.post_start == s.sent.post_start + count(
            s.post_game.timer.elapsed == 0,
        ),
        s.frame(delta, keys, relocation).sent.post_end == s.sent.post_end + 1,
        s.frame(delta, keys, relocation).sent.pre_start == s.sent.pre_start,
        s.frame(delta, keys, relocation).sent.pre_end == s.sent.pre_end,
        s.frame(delta, keys, relocation).sent.running_start == s.sent.running_start,
        s.frame(delta, keys, relocation).sent.running_end == s.sent.running_end,
{
    lemma_before_movement(s, delta);
    let t = s.before_movement(delta);
    assert(t.in_pre_game());
    assert(s.relocation_fits(delta, relocation));
    lemma_frame_keeps_wf(s, delta, keys, relocation);
}

/// A run of frames that together do not take the countdown to its end
/// leaves the game in the pre-game phase with their time counted, fires no
/// end of that phase and no start of a run, and fires the start of the
/// phase exactly once if the countdown had counted nothing and time moved
/// at all.
pub proof fn lemma_countdown_run(s: SessionModel, frames: Seq<FrameInput>)
    requires
        s.wf(),
        s.in_pre_game(),
        s.pre_game.timer.elapsed + total_time(frames) < PRE_GAME_DURATION,
    ensures
        total_time(frames) >= 0,
        run(s, frames).wf(),
        run(s, frames).in_pre_game(),
        run(s, frames).pre_game.timer.elapsed == s.pre_game.timer.elapsed + total_time(frames),
        run(s, frames).sent.pre_start == s.sent.pre_start + count(
            s.pre_game.timer.elapsed == 0 && total_time(frames) > 0,
        ),
        run(s, frames).sent.pre_end == s.sent.pre_end,
        run(s, frames).sent.running_start == s.sent.running_start,
    decreases frames.len(),
{
    if frames.len() > 0 {
        let f = frames.last();
        lemma_total_time_bounds(frames.drop_last());
        lemma_countdown_run(s, frames.drop_last());
        lemma_countdown_frame(run(s, frames.drop_last()), f.delta, f.keys, f.relocation);
    }
}

/// The time of a run of frames is not negative.
pub proof fn lemma_total_time_bounds(frames: Seq<FrameInput>)
    ensures
        total_time(frames) >= 0,
    decreases frames.len(),
{
    if frames.len() > 0 {
        lemma_total_time_bounds(frames.drop_last());
    }
}

/// From the start of the pre-game phase, a run of frames whose time reaches
/// the length of the countdown with its last frame fires exactly one start
/// of the pre-game phase, exactly one end of it and exactly one start of a
/// run, and leaves the game in the running phase.
pub proof fn lemma_pre_game_cycle(s: SessionModel, frames: Seq<FrameInput>)
    requires
        s.wf(),
        s.in_pre_game(),
        s.pre_game.timer.elapsed == 0,
        frames.len() > 0,
        total_time(frames.drop_last()) < PRE_GAME_DURATION,
        total_time(frames) >= PRE_GAME_DURATION,
        run(s, frames.drop_last()).relocation_fits(frames.last().delta, frames.last().relocation),
    ensures
        run(s, frames).wf(),
        run(s, frames).in_running(),
        run(s, frames).sent.pre_start == s.sent.pre_start + 1,
        run(s, frames).sent.pre_end == s.sent.pre_end + 1,
        run(s, frames).sent.running_start == s.sent.running_start + 1,
{
    let f = frames.last();
    lemma_countdown_run(s, frames.drop_last());
    lemma_countdown_expiry(run(s, frames.drop_last()), f.delta, f.keys, f.relocation);
}

/// A run of frames that together do not take the pause to its end leaves
/// the game in the post-game phase with their time counted and fires no end
/// of that phase.
pub proof fn lemma_pause_run(s: SessionModel, frames: Seq<FrameInput>)
    requires
        s.wf(),
        s.in_post_game(),
        s.post_game.timer.elapsed + total_time(frames) < POST_GAME_DURATION,
    ensures
        run(s, frames).wf(),
        run(s, frames).in_post_game(),
        run(s, frames).post_game.timer.elapsed == s.post_game.timer.elapsed + total_time(
            frames,
        ),
        run(s, frames).sent.post_end == s.sent.post_end,
        run(s, frames).sent.pre_start == s.sent.pre_start,
        run(s, frames).sent.pre_end == s.sent.pre_end,
        run(s, frames).sent.running_start == s.sent.running_start,
    decreases frames.len(),
{
    if frames.len() > 0 {
        let f = frames.last();
        lemma_total_time_bounds(frames.drop_last());
        lemma_pause_run(s, frames.drop_last());
        lemma_pause_frame(run(s, frames.drop_last()), f.delta, f.keys, f.relocation);
    }
}

/// From the post-game phase, a run of frames whose time reaches what is
/// left of the pause with its last frame fires exactly one end of the
/// post-game phase and leaves the game in the pre-game phase, with nothing
/// counted and no board, ready to spawn anew.
pub proof fn lemma_post_game_cycle(s: SessionModel, frames: Seq<FrameInput>)
    requires
        s.wf(),
        s.in_post_game(),
        frames.len() > 0,
        s.post_game.timer.elapsed + total_time(frames.drop_last()) < POST_GAME_DURATION,
        s.post_game.timer.elapsed + total_time(frames) >= POST_GAME_DURATION,
    ensures
        run(s, frames).wf(),
        run(s, frames).in_pre_game(),
        run(s, frames).pre_game.timer.elapsed == 0,
        run(s, frames).board is None,
        run(s, frames).sent.post_end == s.sent.post_end + 1,
        run(s, frames).sent.pre_start == s.sent.pre_start,
        run(s, frames).sent.pre_end == s.sent.pre_end,
        run(s, frames).sent.running_start == s.sent.running_start,
{
    let f = frames.last();
    lemma_pause_run(s, frames.drop_last());
    lemma_pause_expiry(run(s, frames.drop_last()), f.delta, f.keys, f.relocation);
}

} // verus!
