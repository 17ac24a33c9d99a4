//! The snake: its segments, its ordered body and its direction of travel.

use vstd::prelude::*;
use std::collections::VecDeque;
use crate::grid::GridPosition;
use crate::grid::SnakeDirection;

verus! {

/// The part that a segment plays in the snake.
#[derive(PartialEq, Eq, Structural, Copy, Clone, Debug)]
pub enum SegmentRole {
    Head,
    Body,
    Tail,
}

/// One cell-sized unit of the snake. Segments live in an arena and are named
/// by their index in it, which never changes while the snake lives.
#[derive(PartialEq, Eq, Structural, Copy, Clone, Debug)]
pub struct Segment {
    pub position: GridPosition,
    pub role: SegmentRole,
}

/// Tag by which a presentation layer marks what shows the head segment.
pub struct SnakeHead;

/// Tag by which a presentation layer marks what shows the tail segment.
pub struct SnakeTail;

/// Tag by which a presentation layer marks what shows a body segment.
pub struct SnakeBody;

/// The directional signals that were pressed since the last frame.
#[derive(PartialEq, Eq, Structural, Copy, Clone, Debug)]
pub struct DirectionKeys {
    pub up: bool,
    pub down: bool,
    pub left: bool,
    pub right: bool,
}

/// The snake: the arena indices of its segments from head to tail, the
/// direction that the next move will take, and the direction that the last
/// move took.
#[derive(Debug)]
pub struct Snake {
    pub body: VecDeque<usize>,
    pub direction: SnakeDirection,
    pub last_direction: SnakeDirection,
}

impl Default for Snake {
    fn default() -> (s: Snake)
        ensures
            s.body@ == Seq::<usize>::empty(),
            s.direction == SnakeDirection::Up,
            s.last_direction == SnakeDirection::Up,
    {
        Snake {
            body: VecDeque::new(),
            direction: SnakeDirection::Up,
            last_direction: SnakeDirection::Up,
        }
    }
}

/// Whether the signal for direction `d` is among `keys`.
pub open spec fn pressed(keys: DirectionKeys, d: SnakeDirection) -> bool {
    match d {
        SnakeDirection::Up => keys.up,
        SnakeDirection::Down => keys.down,
        SnakeDirection::Left => keys.left,
        SnakeDirection::Right => keys.right,
    }
}

/// Whether the signal for direction `d` is among `keys` and is taken: it is
/// not, if `d` would reverse the last move.
pub open spec fn accepted(last: SnakeDirection, keys: DirectionKeys, d: SnakeDirection) -> bool {
    pressed(keys, d) && d != last.spec_opposite()
}

/// The pending direction after the signals `keys`: the signals are taken in
/// the order up, down, left, right, so the last accepted one in that order
/// stands; if none is accepted, `current` stays.
pub open spec fn steer(
    current: SnakeDirection,
    last: SnakeDirection,
    keys: DirectionKeys,
) -> SnakeDirection {
    if accepted(last, keys, SnakeDirection::Right) {
        SnakeDirection::Right
    } else if accepted(last, keys, SnakeDirection::Left) {
        SnakeDirection::Left
    } else if accepted(last, keys, SnakeDirection::Down) {
        SnakeDirection::Down
    } else if accepted(last, keys, SnakeDirection::Up) {
        SnakeDirection::Up
    } else {
        current
    }
}

/// Sets the snake's pending direction from the pressed signals. A signal that
/// would reverse the last move is ignored; the others are applied in the
/// order up, down, left, right. Body and last direction are left alone.
pub fn player_input_system(keyboard_input: DirectionKeys, snake: &mut Snake)
    ensures
        final(snake).direction == steer(
            old(snake).direction,
            old(snake).last_direction,
            keyboard_input,
        ),
        final(snake).last_direction == old(snake).last_direction,
        final(snake).body == old(snake).body,
{
    let reverse = snake.last_direction.opposite();
    if keyboard_input.up && reverse != SnakeDirection::Up {
        snake.direction = SnakeDirection::Up;
    }
    if keyboard_input.down && reverse != SnakeDirection::Down {
        snake.direction = SnakeDirection::Down;
    }
    if keyboard_input.left && reverse != SnakeDirection::Left {
        snake.direction = SnakeDirection::Left;
    }
    if keyboard_input.right && reverse != SnakeDirection::Right {
        snake.direction = SnakeDirection::Right;
    }
}

/// Steering never accepts a reversal: the new direction is the old one or a
/// pressed one that is not opposite to the last move. So a snake whose
/// pending direction did not reverse its last move keeps that property, and
/// when the only signal pressed is the reversal the direction stays as it
/// was.
pub proof fn lemma_steer_rejects_reversal(
    current: SnakeDirection,
    last: SnakeDirection,
    keys: DirectionKeys,
)
    ensures
        steer(current, last, keys) == current || accepted(
            last,
            keys,
            steer(current, last, keys),
        ),
        current != last.spec_opposite() ==> steer(current, last, keys) != last.spec_opposite(),
        (forall|d: SnakeDirection| pressed(keys, d) ==> d == last.spec_opposite()) ==> steer(
            current,
            last,
            keys,
        ) == current,
{
    if forall|d: SnakeDirection| pressed(keys, d) ==> d == last.spec_opposite() {
        assert(pressed(keys, SnakeDirection::Up) ==> SnakeDirection::Up == last.spec_opposite());
        assert(pressed(keys, SnakeDirection::Down) ==> SnakeDirection::Down
            == last.spec_opposite());
        assert(pressed(keys, SnakeDirection::Left) ==> SnakeDirection::Left
            == last.spec_opposite());
        assert(pressed(keys, SnakeDirection::Right) ==> SnakeDirection::Right
            == last.spec_opposite());
    }
}

} // verus!
