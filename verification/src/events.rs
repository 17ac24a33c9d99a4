//! The events that mark the boundaries of the game's phases, and the
//! channels that carry them from the system that fires them to its
//! listeners.

use vstd::prelude::*;
use core::marker::PhantomData;

verus! {

/// Fired when the pre-game phase begins to count.
pub struct PreGameStartEvent;

/// Fired when the pre-game phase has run its time.
pub struct PreGameEndEvent;

/// Fired when the running phase begins.
pub struct RunningGameStartEvent;

/// Fired when the running phase ends, by a collision of the snake.
pub struct RunningGameEndEvent;

/// Fired when the post-game phase begins to count.
pub struct PostGameStartEvent;

/// Fired when the post-game phase has run its time.
pub struct PostGameEndEvent;

/// A channel of events of one kind. It keeps every event sent, in order, so
/// that each listener can tell by its own position which ones it has yet to
/// see. For the unit events of this crate that is no more than a count.
pub struct Events<T> {
    log: Vec<T>,
}

impl<T> View for Events<T> {
    type V = Seq<T>;

    closed spec fn view(&self) -> Seq<T> {
        self.log@
    }
}

impl<T> Events<T> {
    /// A channel on which nothing was sent.
    pub fn new() -> (events: Events<T>)
        ensures
            events@ == Seq::<T>::empty(),
    {
        Events { log: Vec::new() }
    }

    /// Appends `event` to the channel.
    pub fn send(&mut self, event: T)
        ensures
            final(self)@ == old(self)@.push(event),
    {
        self.log.push(event);
    }

    /// Number of events sent so far.
    pub fn len(&self) -> (n: usize)
        ensures
            n == self@.len(),
    {
        self.log.len()
    }
}

/// A listener's place in a channel: the number of events that it has gone
/// past. It only ever moves forward to the channel's end.
pub struct EventReader<T> {
    cursor: usize,
    marker: PhantomData<T>,
}

impl<T> EventReader<T> {
    /// Number of events that the reader has gone past.
    pub closed spec fn position(&self) -> nat {
        self.cursor as nat
    }

    /// Number of events in `events` that the reader has not seen yet.
    pub open spec fn unread(&self, events: &Events<T>) -> nat {
        if self.position() <= events@.len() {
            (events@.len() - self.position()) as nat
        } else {
            0
        }
    }

    /// A reader that has seen nothing.
    pub fn new() -> (reader: EventReader<T>)
        ensures
            reader.position() == 0,
    {
        EventReader { cursor: 0, marker: PhantomData }
    }

    /// Takes the reader to the end of `events` and returns the number of
    /// events that it had not seen. A second call on the same channel
    /// returns 0 until something is sent.
    pub fn read(&mut self, events: &Events<T>) -> (n: usize)
        ensures
            n == old(self).unread(events),
            final(self).position() == events@.len(),
    {
        let len = events.len();
        let n = if self.cursor <= len {
            len - self.cursor
        } else {
            0
        };
        self.cursor = len;
        n
    }
}

} // verus!
