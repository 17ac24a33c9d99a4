//! The three phases of a game, their timers, and the state of the listeners
//! that carry the game from one phase to the next. Time is counted in whole
//! microseconds.

use vstd::prelude::*;
use crate::events::EventReader;
use crate::events::PostGameEndEvent;
use crate::events::PostGameStartEvent;
use crate::events::PreGameEndEvent;
use crate::events::PreGameStartEvent;
use crate::events::RunningGameEndEvent;
use crate::events::RunningGameStartEvent;

verus! {

/// Length of the countdown before a run, in microseconds.
pub const PRE_GAME_DURATION: u64 = 3_000_000;

/// Length of the pause after a run, in microseconds.
pub const POST_GAME_DURATION: u64 = 4_000_000;

/// A timer that counts elapsed time up to a set duration and then stays
/// finished until it is reset.
#[derive(PartialEq, Eq, Structural, Copy, Clone, Debug)]
pub struct Timer {
    pub elapsed: u64,
    pub duration: u64,
    pub finished: bool,
}

impl Timer {
    /// The timer after `delta` more microseconds. A timer that has not
    /// reached its duration counts them, stopping at the largest number that
    /// it can hold; one that has reached it stands still. Either way it is
    /// finished exactly if the time counted has reached the duration.
    pub open spec fn ticked(self, delta: u64) -> Timer {
        let elapsed = if self.elapsed >= self.duration {
            self.elapsed
        } else if self.elapsed + delta > u64::MAX {
            u64::MAX
        } else {
            (self.elapsed + delta) as u64
        };
        Timer { elapsed, duration: self.duration, finished: elapsed >= self.duration }
    }

    /// The timer set back to zero.
    pub open spec fn cleared(self) -> Timer {
        Timer { elapsed: 0, duration: self.duration, finished: false }
    }

    /// A timer of the given duration that has counted nothing.
    pub fn from_micros(duration: u64) -> (timer: Timer)
        ensures
            timer == (Timer { elapsed: 0, duration, finished: false }),
    {
        Timer { elapsed: 0, duration, finished: false }
    }

    /// Counts `delta` more microseconds.
    pub fn tick(&mut self, delta: u64)
        ensures
            *final(self) == old(self).ticked(delta),
    {
        if self.elapsed < self.duration {
            self.elapsed = self.elapsed.saturating_add(delta);
        }
        self.finished = self.elapsed >= self.duration;
    }

    /// Sets the timer back to zero.
    pub fn reset(&mut self)
        ensures
            *final(self) == old(self).cleared(),
    {
        self.finished = false;
        self.elapsed = 0;
    }
}

/// While a timer has not reached its duration, a tick that does not reach it
/// either adds exactly `delta`; any other tick finishes the timer.
pub proof fn lemma_tick_counts(timer: Timer, delta: u64)
    requires
        timer.elapsed < timer.duration,
    ensures
        timer.ticked(delta).finished <==> timer.elapsed + delta >= timer.duration,
        !timer.ticked(delta).finished ==> timer.ticked(delta).elapsed == timer.elapsed + delta,
{
}

/// The countdown before a run.
#[derive(PartialEq, Eq, Structural, Copy, Clone, Debug)]
pub struct PreGamePhase {
    pub active: bool,
    pub timer: Timer,
}

impl PreGamePhase {
    /// The phase with a fresh timer of three seconds.
    pub fn new(active: bool) -> (phase: PreGamePhase)
        ensures
            phase.active == active,
            phase.timer == (Timer { elapsed: 0, duration: PRE_GAME_DURATION, finished: false }),
    {
        PreGamePhase { active, timer: Timer::from_micros(PRE_GAME_DURATION) }
    }

    /// Whether a frame of `delta` microseconds is the one in which the phase
    /// begins to count: it is active, has counted nothing, and time moves.
    pub open spec fn starts(self, delta: u64) -> bool {
        self.active && self.timer.elapsed == 0 && delta != 0
    }

    /// Whether a frame of `delta` microseconds takes the phase to its end.
    pub open spec fn ends(self, delta: u64) -> bool {
        self.active && self.timer.ticked(delta).finished
    }

    /// The phase after a frame of `delta` microseconds: an idle phase stays
    /// as it is, one that ends goes idle with its timer at zero, and any
    /// other has counted the frame.
    pub open spec fn after(self, delta: u64) -> PreGamePhase {
        if !self.active {
            self
        } else if self.ends(delta) {
            PreGamePhase { active: false, timer: self.timer.cleared() }
        } else {
            PreGamePhase { active: true, timer: self.timer.ticked(delta) }
        }
    }
}

/// The run itself. It has no timer: it lasts until the snake collides.
#[derive(PartialEq, Eq, Structural, Copy, Clone, Debug)]
pub struct RunningGamePhase {
    pub active: bool,
}

impl RunningGamePhase {
    /// The phase, active or idle.
    pub fn new(active: bool) -> (phase: RunningGamePhase)
        ensures
            phase.active == active,
    {
        RunningGamePhase { active }
    }
}

/// The pause after a run.
#[derive(PartialEq, Eq, Structural, Copy, Clone, Debug)]
pub struct PostGamePhase {
    pub active: bool,
    pub timer: Timer,
}

impl PostGamePhase {
    /// The phase with a fresh timer of four seconds.
    pub fn new(active: bool) -> (phase: PostGamePhase)
        ensures
            phase.active == active,
            phase.timer == (Timer { elapsed: 0, duration: POST_GAME_DURATION, finished: false }),
    {
        PostGamePhase { active, timer: Timer::from_micros(POST_GAME_DURATION) }
    }

    /// Whether a frame of `delta` microseconds is the one in which the phase
    /// begins to count: it is active, has counted nothing, and time moves.
    pub open spec fn starts(self, delta: u64) -> bool {
        self.active && self.timer.elapsed == 0 && delta != 0
    }

    /// Whether a frame of `delta` microseconds takes the phase to its end.
    pub open spec fn ends(self, delta: u64) -> bool {
        self.active && self.timer.ticked(delta).finished
    }

    /// The phase after a frame of `delta` microseconds: an idle phase stays
    /// as it is, one that ends goes idle with its timer at zero, and any
    /// other has counted the frame.
    pub open spec fn after(self, delta: u64) -> PostGamePhase {
        if !self.active {
            self
        } else if self.ends(delta) {
            PostGamePhase { active: false, timer: self.timer.cleared() }
        } else {
            PostGamePhase { active: true, timer: self.timer.ticked(delta) }
        }
    }
}

/// Place of the listener to [`PreGameStartEvent`].
pub struct PreGameStartListenerState {
    pub event_reader: EventReader<PreGameStartEvent>,
}

/// Place of the listener to [`PreGameEndEvent`].
pub struct PreGameEndListenerState {
    pub event_reader: EventReader<PreGameEndEvent>,
}

/// Place of the listener to [`RunningGameStartEvent`].
pub struct RunningGameStartListenerState {
    pub event_reader: EventReader<RunningGameStartEvent>,
}

/// Place of the listener to [`RunningGameEndEvent`].
pub struct RunningGameEndListenerState {
    pub event_reader: EventReader<RunningGameEndEvent>,
}

/// Place of the listener to [`PostGameStartEvent`].
pub struct PostGameStartListenerState {
    pub event_reader: EventReader<PostGameStartEvent>,
}

/// Place of the listener to [`PostGameEndEvent`].
pub struct PostGameEndListenerState {
    pub event_reader: EventReader<PostGameEndEvent>,
}

impl Default for PreGameStartListenerState {
    fn default() -> (state: PreGameStartListenerState)
        ensures
            state.event_reader.position() == 0,
    {
        PreGameStartListenerState { event_reader: EventReader::new() }
    }
}

impl Default for PreGameEndListenerState {
    fn default() -> (state: PreGameEndListenerState)
        ensures
            state.event_reader.position() == 0,
    {
        PreGameEndListenerState { event_reader: EventReader::new() }
    }
}

impl Default for RunningGameStartListenerState {
    fn default() -> (state: RunningGameStartListenerState)
        ensures
            state.event_reader.position() == 0,
    {
        RunningGameStartListenerState { event_reader: EventReader::new() }
    }
}

impl Default for RunningGameEndListenerState {
    fn default() -> (state: RunningGameEndListenerState)
        ensures
            state.event_reader.position() == 0,
    {
        RunningGameEndListenerState { event_reader: EventReader::new() }
    }
}

impl Default for PostGameStartListenerState {
    fn default() -> (state: PostGameStartListenerState)
        ensures
            state.event_reader.position() == 0,
    {
        PostGameStartListenerState { event_reader: EventReader::new() }
    }
}

impl Default for PostGameEndListenerState {
    fn default() -> (state: PostGameEndListenerState)
        ensures
            state.event_reader.position() == 0,
    {
        PostGameEndListenerState { event_reader: EventReader::new() }
    }
}

} // verus!
