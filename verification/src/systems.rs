//! The systems that drive the cycle of phases: the two timed phases, and the
//! listeners that hand the game from one phase to the next.

use vstd::prelude::*;
use crate::events::Events;
use crate::events::PostGameEndEvent;
use crate::events::PostGameStartEvent;
use crate::events::PreGameEndEvent;
use crate::events::PreGameStartEvent;
use crate::events::RunningGameEndEvent;
use crate::events::RunningGameStartEvent;
use crate::phase::PostGameEndListenerState;
use crate::phase::PostGamePhase;
use crate::phase::PreGameEndListenerState;
use crate::phase::PreGamePhase;
use crate::phase::RunningGameEndListenerState;
use crate::phase::RunningGamePhase;

verus! {

/// The channel content `log` with `event` appended if `fired` holds.
pub open spec fn with_event<T>(log: Seq<T>, fired: bool, event: T) -> Seq<T> {
    if fired {
        log.push(event)
    } else {
        log
    }
}

/// Runs the pre-game phase for one frame of `delta` microseconds. An idle
/// phase does nothing. An active one fires its start event in the frame in
/// which it begins to count, counts the frame, and at its end goes idle with
/// its timer at zero and fires its end event.
pub fn pre_game_system(
    delta: u64,
    start_events: &mut Events<PreGameStartEvent>,
    end_events: &mut Events<PreGameEndEvent>,
    pre_game_state: &mut PreGamePhase,
)
    ensures
        *final(pre_game_state) == old(pre_game_state).after(delta),
        final(start_events)@ == with_event(
            old(start_events)@,
            old(pre_game_state).starts(delta),
            PreGameStartEvent,
        ),
        final(end_events)@ == with_event(
            old(end_events)@,
            old(pre_game_state).ends(delta),
            PreGameEndEvent,
        ),
{
    if !pre_game_state.active {
        return ;
    }
    if pre_game_state.timer.elapsed == 0 && delta != 0 {
        start_events.send(PreGameStartEvent);
    }
    pre_game_state.timer.tick(delta);
    if pre_game_state.timer.finished {
        pre_game_state.timer.reset();
        pre_game_state.active = false;
        end_events.send(PreGameEndEvent);
    }
}

/// Runs the post-game phase for one frame of `delta` microseconds. An idle
/// phase does nothing. An active one fires its start event in the frame in
/// which it begins to count, counts the frame, and at its end goes idle with
/// its timer at zero and fires its end event.
pub fn post_game_system(
    delta: u64,
    start_events: &mut Events<PostGameStartEvent>,
    end_events: &mut Events<PostGameEndEvent>,
    post_game_state: &mut PostGamePhase,
)
    ensures
        *final(post_game_state) == old(post_game_state).after(delta),
        final(start_events)@ == with_event(
            old(start_events)@,
            old(post_game_state).starts(delta),
            PostGameStartEvent,
        ),
        final(end_events)@ == with_event(
            old(end_events)@,
            old(post_game_state).ends(delta),
            PostGameEndEvent,
        ),
{
    if !post_game_state.active {
        return ;
    }
    if post_game_state.timer.elapsed == 0 && delta != 0 {
        start_events.send(PostGameStartEvent);
    }
    post_game_state.timer.tick(delta);
    if post_game_state.timer.finished {
        post_game_state.timer.reset();
        post_game_state.active = false;
        end_events.send(PostGameEndEvent);
    }
}

/// Hands the game from the pre-game phase to the run: for each end of the
/// pre-game phase that the listener has not seen, the running phase is made
/// active and one start event of the run is fired.
pub fn pre_to_run_transition_system(
    state: &mut PreGameEndListenerState,
    pre_game_end_events: &Events<PreGameEndEvent>,
    running_phase: &mut RunningGamePhase,
    running_game_start_events: &mut Events<RunningGameStartEvent>,
)
    ensures
        final(state).event_reader.position() == pre_game_end_events@.len(),
        final(running_phase).active == (old(running_phase).active || old(
            state,
        ).event_reader.unread(pre_game_end_events) > 0),
        final(running_game_start_events)@ == old(running_game_start_events)@ + Seq::new(
            old(state).event_reader.unread(pre_game_end_events),
            |i: int| RunningGameStartEvent,
        ),
{
    let unread = state.event_reader.read(pre_game_end_events);
    let mut i: usize = 0;
    while i < unread
        invariant
            i <= unread,
            running_phase.active == (old(running_phase).active || i > 0),
            running_game_start_events@ == old(running_game_start_events)@ + Seq::new(
                i as nat,
                |i: int| RunningGameStartEvent,
            ),
        decreases unread - i,
    {
        running_phase.active = true;
        running_game_start_events.send(RunningGameStartEvent);
        i += 1;
        assert(running_game_start_events@ =~= old(running_game_start_events)@ + Seq::new(
            i as nat,
            |i: int| RunningGameStartEvent,
        ));
    }
    assert(running_game_start_events@ =~= old(running_game_start_events)@ + Seq::new(
        unread as nat,
        |i: int| RunningGameStartEvent,
    ));
}

/// Hands the game from the run to the post-game phase: if the listener has
/// not seen some end of the run, the running phase goes idle and the
/// post-game phase becomes active.
pub fn run_to_post_transition_system(
    state: &mut RunningGameEndListenerState,
    run_end_events: &Events<RunningGameEndEvent>,
    post_game_phase: &mut PostGamePhase,
    running_game_phase: &mut RunningGamePhase,
)
    ensures
        final(state).event_reader.position() == run_end_events@.len(),
        final(running_game_phase).active == (old(running_game_phase).active && old(
            state,
        ).event_reader.unread(run_end_events) == 0),
        final(post_game_phase).active == (old(post_game_phase).active || old(
            state,
        ).event_reader.unread(run_end_events) > 0),
        final(post_game_phase).timer == old(post_game_phase).timer,
{
    let unread = state.event_reader.read(run_end_events);
    if unread > 0 {
        running_game_phase.active = false;
        post_game_phase.active = true;
    }
}

/// Hands the game from the post-game phase back to the pre-game phase: if
/// the listener has not seen some end of the post-game phase, the pre-game
/// phase becomes active.
pub fn post_to_pre_transition_system(
    state: &mut PostGameEndListenerState,
    post_game_end_events: &Events<PostGameEndEvent>,
    pre_game_phase: &mut PreGamePhase,
)
    ensures
        final(state).event_reader.position() == post_game_end_events@.len(),
        final(pre_game_phase).active == (old(pre_game_phase).active || old(
            state,
        ).event_reader.unread(post_game_end_events) > 0),
        final(pre_game_phase).timer == old(pre_game_phase).timer,
{
    let unread = state.event_reader.read(post_game_end_events);
    if unread > 0 {
        pre_game_phase.active = true;
    }
}

} // verus!
