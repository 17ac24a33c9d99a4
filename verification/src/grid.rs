//! Grid coordinates and movement directions.

use vstd::prelude::*;

verus! {

/// Largest half-extent a board may have. It keeps every coordinate that a
/// move can produce inside `i32` and the number of cells inside `usize`.
pub const MAX_GRID_SIZE: i32 = 1_000;

/// One of the four directions in which the snake can travel.
#[derive(PartialEq, Eq, Structural, Hash, Copy, Clone, Debug)]
pub enum SnakeDirection {
    Up,
    Down,
    Left,
    Right,
}

impl SnakeDirection {
    /// The direction that points the other way.
    pub open spec fn spec_opposite(self) -> SnakeDirection {
        match self {
            SnakeDirection::Up => SnakeDirection::Down,
            SnakeDirection::Down => SnakeDirection::Up,
            SnakeDirection::Left => SnakeDirection::Right,
            SnakeDirection::Right => SnakeDirection::Left,
        }
    }

    /// Change in `x` of one step in this direction.
    pub open spec fn dx(self) -> int {
        match self {
            SnakeDirection::Left => -1,
            SnakeDirection::Right => 1,
            _ => 0,
        }
    }

    /// Change in `y` of one step in this direction.
    pub open spec fn dy(self) -> int {
        match self {
            SnakeDirection::Up => 1,
            SnakeDirection::Down => -1,
            _ => 0,
        }
    }

    /// The direction that points the other way.
    #[verifier::when_used_as_spec(spec_opposite)]
    pub fn opposite(self) -> (r: SnakeDirection)
        ensures
            r == self.spec_opposite(),
    {
        match self {
            SnakeDirection::Up => SnakeDirection::Down,
            SnakeDirection::Down => SnakeDirection::Up,
            SnakeDirection::Left => SnakeDirection::Right,
            SnakeDirection::Right => SnakeDirection::Left,
        }
    }
}

/// Taking the opposite twice gives the direction back, and a direction is
/// never its own opposite.
pub proof fn lemma_opposite_involution(d: SnakeDirection)
    ensures
        d.spec_opposite().spec_opposite() == d,
        d.spec_opposite() != d,
{
}

/// A cell of the grid, by its integer coordinates.
#[derive(PartialEq, Eq, Structural, Hash, Copy, Clone, Debug)]
pub struct GridPosition {
    pub x: i32,
    pub y: i32,
}

impl GridPosition {
    /// The cell with the coordinates `x` and `y`.
    pub fn new(x: i32, y: i32) -> (p: GridPosition)
        ensures
            p.x == x,
            p.y == y,
    {
        GridPosition { x, y }
    }

    /// Whether the cell lies on the square board of half-extent `extent`,
    /// that is, whether neither coordinate exceeds `extent` in magnitude.
    pub open spec fn within(self, extent: int) -> bool {
        -extent <= self.x <= extent && -extent <= self.y <= extent
    }

    /// The cell one step away in direction `d`: up raises `y`, down lowers
    /// it, right raises `x`, left lowers it.
    pub open spec fn spec_neighbor(self, d: SnakeDirection) -> GridPosition {
        GridPosition { x: (self.x + d.dx()) as i32, y: (self.y + d.dy()) as i32 }
    }

    /// The cell one step away in direction `d`.
    #[verifier::when_used_as_spec(spec_neighbor)]
    pub fn neighbor(self, d: SnakeDirection) -> (p: GridPosition)
        requires
            i32::MIN <= self.x + d.dx() <= i32::MAX,
            i32::MIN <= self.y + d.dy() <= i32::MAX,
        ensures
            p == self.spec_neighbor(d),
            p.x == self.x + d.dx(),
            p.y == self.y + d.dy(),
    {
        match d {
            SnakeDirection::Up => GridPosition { x: self.x, y: self.y + 1 },
            SnakeDirection::Down => GridPosition { x: self.x, y: self.y - 1 },
            SnakeDirection::Left => GridPosition { x: self.x - 1, y: self.y },
            SnakeDirection::Right => GridPosition { x: self.x + 1, y: self.y },
        }
    }

    /// Tells whether the cell lies off the board of half-extent `extent`.
    pub fn out_of_bounds(&self, extent: i32) -> (r: bool)
        requires
            i32::MIN < extent,
        ensures
            r == !self.within(extent as int),
    {
        self.x > extent || self.x < -extent || self.y > extent || self.y < -extent
    }
}

} // verus!
