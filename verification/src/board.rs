//! The board: the snake, the food and the free cells, and the move that
//! advances them by one step.

use vstd::prelude::*;
use std::collections::VecDeque;
use crate::free::full_grid;
use crate::free::get_random_location;
use crate::free::init_free_locations;
use crate::free::FreeLocations;
use crate::grid::GridPosition;
use crate::grid::SnakeDirection;
use crate::grid::MAX_GRID_SIZE;
use crate::snake::Segment;
use crate::snake::SegmentRole;
use crate::snake::Snake;

verus! {

/// What one move came to.
#[derive(PartialEq, Eq, Structural, Copy, Clone, Debug)]
pub enum MoveOutcome {
    /// The cell ahead holds a body segment: nothing moved, the run ends.
    Collided,
    /// The cell ahead held the food: the snake grew by one, the food moved.
    Ate,
    /// The cell ahead was neither: the tail went to the front.
    Moved,
    /// The cell ahead holds the food and no free cell is left to put it in:
    /// nothing moved, the run ends.
    Filled,
}

impl MoveOutcome {
    /// Whether this outcome ends the run.
    pub open spec fn ends_run(self) -> bool {
        self == MoveOutcome::Collided || self == MoveOutcome::Filled
    }
}

/// The role that the segment at place `i` of a body of `n` segments plays.
pub open spec fn role_at(i: int, n: int) -> SegmentRole {
    if i == 0 {
        SegmentRole::Head
    } else if i == n - 1 {
        SegmentRole::Tail
    } else {
        SegmentRole::Body
    }
}

/// The mathematical content of a board.
pub struct BoardModel {
    /// Half-extent of the square grid.
    pub grid_size: int,
    /// The arena of segment records; a segment is named by its index here.
    pub segments: Seq<Segment>,
    /// The snake's segments by arena index, head first, tail last.
    pub body: Seq<nat>,
    /// The direction that the next move will take.
    pub direction: SnakeDirection,
    /// The direction that the last move took.
    pub last_direction: SnakeDirection,
    /// Whether the snake is acting, that is, whether a run is on for it.
    pub acting: bool,
    /// The cell that holds the food.
    pub food: GridPosition,
    /// The cells that hold neither snake nor food.
    pub free: Set<GridPosition>,
}

impl BoardModel {
    /// The cell of the segment at place `i` of the body.
    pub open spec fn cell(self, i: int) -> GridPosition {
        self.segments[self.body[i] as int].position
    }

    /// The role tag of the segment at place `i` of the body.
    pub open spec fn role(self, i: int) -> SegmentRole {
        self.segments[self.body[i] as int].role
    }

    /// The snake's cells, head first.
    pub open spec fn cells(self) -> Seq<GridPosition> {
        Seq::new(self.body.len(), |i: int| self.cell(i))
    }

    /// Whether some segment of the snake lies on `p`.
    pub open spec fn covers(self, p: GridPosition) -> bool {
        exists|i: int| 0 <= i < self.body.len() && #[trigger] self.cell(i) == p
    }

    /// The cells that the snake lies on.
    pub open spec fn occupied(self) -> Set<GridPosition> {
        Set::new(|p: GridPosition| self.covers(p))
    }

    /// The cell of the head.
    pub open spec fn head(self) -> GridPosition {
        self.cell(0)
    }

    /// The cell of the tail.
    pub open spec fn tail(self) -> GridPosition {
        self.cell(self.body.len() - 1)
    }

    /// Whether the head lies on the grid.
    pub open spec fn in_bounds(self) -> bool {
        self.head().within(self.grid_size)
    }

    /// The cell that the head would enter on the next move.
    pub open spec fn next_head(self) -> GridPosition {
        self.head().spec_neighbor(self.direction)
    }

    /// Whether the cell ahead holds a segment of the snake tagged as body.
    pub open spec fn hits_body(self) -> bool {
        exists|i: int|
            0 <= i < self.body.len() && #[trigger] self.role(i) == SegmentRole::Body && self.cell(
                i,
            ) == self.next_head()
    }

    /// The invariant of a board: the body names distinct segments of the
    /// arena, tagged head, body and tail in order; no two segments share a
    /// cell; all but the head lie on the grid and the head at most one step
    /// off it; the food lies on the grid and under no segment; and the free
    /// cells are exactly the cells of the grid that hold neither.
    pub open spec fn wf(self) -> bool {
        &&& 3 <= self.grid_size <= MAX_GRID_SIZE
        &&& self.body.len() >= 3
        &&& self.body.len() == self.segments.len()
        &&& forall|i: int| 0 <= i < self.body.len() ==> #[trigger] self.body[i] < self.segments.len()
        &&& forall|i: int, j: int|
            0 <= i < j < self.body.len() ==> #[trigger] self.body[i] != #[trigger] self.body[j]
        &&& forall|i: int|
            0 <= i < self.body.len() ==> #[trigger] self.role(i) == role_at(
                i,
                self.body.len() as int,
            )
        &&& forall|i: int, j: int|
            0 <= i < j < self.body.len() ==> #[trigger] self.cell(i) != #[trigger] self.cell(j)
        &&& forall|i: int|
            1 <= i < self.body.len() ==> (#[trigger] self.cell(i)).within(self.grid_size)
        &&& self.head().within(self.grid_size + 1)
        &&& self.food.within(self.grid_size)
        &&& !self.covers(self.food)
        &&& forall|p: GridPosition| #[trigger]
            self.free.contains(p) <==> (p.within(self.grid_size) && !self.covers(p) && p
                != self.food)
    }

    /// What the next move will come to. A body segment ahead is looked for
    /// first, so that food in the same cell cannot hide it.
    pub open spec fn outcome(self) -> MoveOutcome {
        if self.hits_body() {
            MoveOutcome::Collided
        } else if self.next_head() == self.food {
            if self.free == Set::<GridPosition>::empty() {
                MoveOutcome::Filled
            } else {
                MoveOutcome::Ate
            }
        } else {
            MoveOutcome::Moved
        }
    }

    /// The board after a move that ends the run: only the direction taken is
    /// recorded.
    pub open spec fn after_halt(self) -> BoardModel {
        BoardModel { last_direction: self.direction, ..self }
    }

    /// The board after the snake ate: the old head is tagged body, a new head
    /// segment stands on the cell ahead, in front of the body; the food lies
    /// on `relocation`, which is free no longer. The tail stays.
    pub open spec fn after_grow(self, relocation: GridPosition) -> BoardModel {
        let head_id = self.body[0] as int;
        let turned = Segment { position: self.segments[head_id].position, role: SegmentRole::Body };
        let fresh = Segment { position: self.next_head(), role: SegmentRole::Head };
        BoardModel {
            segments: self.segments.update(head_id, turned).push(fresh),
            body: seq![self.segments.len()] + self.body,
            last_direction: self.direction,
            food: relocation,
            free: self.free.remove(relocation),
            ..self
        }
    }

    /// The board after a plain move: the tail's cell is free again, the tail
    /// segment stands on the cell ahead as the new head, in front of the
    /// body; the old head is tagged body, the segment now last is tagged
    /// tail, and the cell ahead is free no longer.
    pub open spec fn after_slide(self) -> BoardModel {
        let n = self.body.len() as int;
        let head_id = self.body[0] as int;
        let tail_id = self.body[n - 1] as int;
        let last_id = self.body[n - 2] as int;
        let moved = Segment { position: self.next_head(), role: SegmentRole::Head };
        let turned = Segment { position: self.segments[head_id].position, role: SegmentRole::Body };
        let ending = Segment { position: self.segments[last_id].position, role: SegmentRole::Tail };
        BoardModel {
            segments: self.segments.update(tail_id, moved).update(head_id, turned).update(
                last_id,
                ending,
            ),
            body: seq![self.body[n - 1]] + self.body.subrange(0, n - 1),
            last_direction: self.direction,
            free: self.free.insert(self.tail()).remove(self.next_head()),
            ..self
        }
    }

    /// The board after one move, where `relocation` is the cell drawn for the
    /// food; it matters only when the snake eats.
    pub open spec fn step(self, relocation: GridPosition) -> BoardModel {
        match self.outcome() {
            MoveOutcome::Collided | MoveOutcome::Filled => self.after_halt(),
            MoveOutcome::Ate => self.after_grow(relocation),
            MoveOutcome::Moved => self.after_slide(),
        }
    }
}

/// The board as it is spawned: tail, body and head on (0,0), (0,1) and (0,2),
/// created in that order, heading up and not yet acting; the food on (-3,2);
/// every other cell of the grid free.
pub open spec fn spawned(grid_size: int) -> BoardModel {
    BoardModel {
        grid_size,
        segments: seq![
            Segment { position: GridPosition { x: 0, y: 0 }, role: SegmentRole::Tail },
            Segment { position: GridPosition { x: 0, y: 1 }, role: SegmentRole::Body },
            Segment { position: GridPosition { x: 0, y: 2 }, role: SegmentRole::Head },
        ],
        body: seq![2nat, 1nat, 0nat],
        direction: SnakeDirection::Up,
        last_direction: SnakeDirection::Up,
        acting: false,
        food: GridPosition { x: -3i32, y: 2 },
        free: full_grid(grid_size).remove(GridPosition { x: 0, y: 0 }).remove(
            GridPosition { x: 0, y: 1 },
        ).remove(GridPosition { x: 0, y: 2 }).remove(GridPosition { x: -3i32, y: 2 }),
    }
}

/// A freshly spawned board meets the invariant, with its head on the grid.
pub proof fn lemma_spawned_wf(grid_size: int)
    requires
        3 <= grid_size <= MAX_GRID_SIZE,
    ensures
        spawned(grid_size).wf(),
        spawned(grid_size).in_bounds(),
        spawned(grid_size).cells() == seq![
            GridPosition { x: 0, y: 2 },
            GridPosition { x: 0, y: 1 },
            GridPosition { x: 0, y: 0 },
        ],
{
    let m = spawned(grid_size);
    assert(m.cell(0) == GridPosition { x: 0, y: 2 });
    assert(m.cell(1) == GridPosition { x: 0, y: 1 });
    assert(m.cell(2) == GridPosition { x: 0, y: 0 });
    assert(m.role(0) == SegmentRole::Head);
    assert(m.role(1) == SegmentRole::Body);
    assert(m.role(2) == SegmentRole::Tail);
    assert(m.cells() =~= seq![
        GridPosition { x: 0, y: 2 },
        GridPosition { x: 0, y: 1 },
        GridPosition { x: 0, y: 0 },
    ]);
    assert forall|p: GridPosition| #[trigger]
        m.free.contains(p) <==> (p.within(grid_size) && !m.covers(p) && p != m.food) by {
        if p.within(grid_size) && !m.covers(p) {
            assert(m.cell(0) != p);
            assert(m.cell(1) != p);
            assert(m.cell(2) != p);
        }
    }
}

/// A plain move keeps the invariant. The snake's cells afterwards are the
/// cell ahead followed by all the old cells but the tail's.
pub proof fn lemma_slide(m: BoardModel)
    requires
        m.wf(),
        m.in_bounds(),
        m.outcome() == MoveOutcome::Moved,
    ensures
        m.after_slide().wf(),
        m.after_slide().body.len() == m.body.len(),
        m.after_slide().cells() == seq![m.next_head()] + m.cells().drop_last(),
{
    let a = m.after_slide();
    let n = m.body.len() as int;
    let next = m.next_head();
    assert(m.body[0] != m.body[n - 1]);
    assert(m.body[0] != m.body[n - 2]);
    assert(m.body[n - 2] != m.body[n - 1]);
    assert(a.body.len() == n);
    assert(a.body[0] == m.body[n - 1]);
    assert(a.cell(0) == next);
    assert(a.role(0) == SegmentRole::Head);
    assert forall|i: int| 1 <= i < n implies #[trigger] a.body[i] == m.body[i - 1] && a.cell(i)
        == m.cell(i - 1) by {
        assert(m.body[i - 1] != m.body[n - 1]);
    }
    assert forall|i: int| 0 <= i < n implies #[trigger] a.role(i) == role_at(i, n) by {
        if i >= 1 {
            assert(a.body[i] == m.body[i - 1]);
            assert(m.body[i - 1] != m.body[n - 1]);
            assert(m.role(i - 1) == role_at(i - 1, n));
            if i - 1 != 0 {
                assert(m.body[0] != m.body[i - 1]);
            }
            if i - 1 != n - 2 {
                assert(m.body[i - 1] != m.body[n - 2]);
            }
        }
    }
    assert forall|i: int, j: int| 0 <= i < j < n implies #[trigger] a.body[i] != #[trigger] a.body[j] by {
        assert(a.body[j] == m.body[j - 1]);
        if i >= 1 {
            assert(a.body[i] == m.body[i - 1]);
        }
    }
    assert forall|i: int| 0 <= i < n - 1 implies #[trigger] m.cell(i) != next by {
        if i >= 1 {
            assert(m.role(i) == SegmentRole::Body);
        }
    }
    assert forall|i: int, j: int| 0 <= i < j < n implies #[trigger] a.cell(i) != #[trigger] a.cell(j) by {
        assert(a.body[j] == m.body[j - 1]);
        assert(m.cell(j - 1) != next);
        if i >= 1 {
            assert(a.body[i] == m.body[i - 1]);
            assert(m.cell(i - 1) != m.cell(j - 1));
        }
    }
    assert forall|i: int| 1 <= i < n implies (#[trigger] a.cell(i)).within(a.grid_size) by {
        assert(a.body[i] == m.body[i - 1]);
        if i - 1 >= 1 {
            assert(m.cell(i - 1).within(m.grid_size));
        }
    }
    assert forall|p: GridPosition| a.covers(p) <==> (p == next || (m.covers(p) && p != m.tail()))
    by {
        if a.covers(p) {
            let i = choose|i: int| 0 <= i < a.body.len() && #[trigger] a.cell(i) == p;
            if i >= 1 {
                assert(a.body[i] == m.body[i - 1]);
                assert(m.cell(i - 1) == p);
                assert(m.cell(i - 1) != m.cell(n - 1));
            }
        }
        if p == next {
            assert(a.cell(0) == p);
        }
        if m.covers(p) && p != m.tail() {
            let i = choose|i: int| 0 <= i < m.body.len() && #[trigger] m.cell(i) == p;
            assert(a.body[i + 1] == m.body[i]);
            assert(a.cell(i + 1) == p);
        }
    }
    assert(m.covers(m.tail())) by {
        assert(m.cell(n - 1) == m.tail());
    }
    assert(m.tail().within(m.grid_size)) by {
        assert(m.cell(n - 1).within(m.grid_size));
    }
    assert(a.cells() =~= seq![m.next_head()] + m.cells().drop_last()) by {
        assert forall|i: int| 0 <= i < n implies a.cells()[i] == (seq![m.next_head()]
            + m.cells().drop_last())[i] by {
            if i >= 1 {
                assert(a.body[i] == m.body[i - 1]);
            }
        }
    }
}

/// A move onto the food keeps the invariant, and the head stays on the grid.
/// The snake's cells afterwards are the cell ahead followed by all the old
/// cells.
pub proof fn lemma_grow(m: BoardModel, relocation: GridPosition)
    requires
        m.wf(),
        m.in_bounds(),
        m.outcome() == MoveOutcome::Ate,
        m.free.contains(relocation),
    ensures
        m.after_grow(relocation).wf(),
        m.after_grow(relocation).in_bounds(),
        m.after_grow(relocation).body.len() == m.body.len() + 1,
        m.after_grow(relocation).cells() == seq![m.next_head()] + m.cells(),
{
    let a = m.after_grow(relocation);
    let n = m.body.len() as int;
    let next = m.next_head();
    assert(a.body.len() == n + 1);
    assert(a.body[0] == n);
    assert(a.cell(0) == next);
    assert(a.role(0) == SegmentRole::Head);
    assert forall|i: int| 1 <= i < n + 1 implies #[trigger] a.body[i] == m.body[i - 1] && a.cell(
        i,
    ) == m.cell(i - 1) by {
        assert(m.body[i - 1] < m.segments.len());
    }
    assert forall|i: int| 0 <= i < n + 1 implies #[trigger] a.role(i) == role_at(i, n + 1) by {
        if i >= 1 {
            assert(a.body[i] == m.body[i - 1]);
            assert(m.body[i - 1] < m.segments.len());
            assert(m.role(i - 1) == role_at(i - 1, n));
            if i - 1 != 0 {
                assert(m.body[0] != m.body[i - 1]);
            }
        }
    }
    assert forall|i: int| 0 <= i < n + 1 implies #[trigger] a.body[i] < a.segments.len() by {
        if i >= 1 {
            assert(a.body[i] == m.body[i - 1]);
            assert(m.body[i - 1] < m.segments.len());
        }
    }
    assert forall|i: int, j: int| 0 <= i < j < n + 1 implies #[trigger] a.body[i] != #[trigger] a.body[j] by {
        assert(a.body[j] == m.body[j - 1]);
        assert(m.body[j - 1] < m.segments.len());
        if i >= 1 {
            assert(a.body[i] == m.body[i - 1]);
        }
    }
    assert forall|i: int| 0 <= i < n implies #[trigger] m.cell(i) != next by {
        assert(m.covers(m.cell(i)));
    }
    assert forall|i: int, j: int| 0 <= i < j < n + 1 implies #[trigger] a.cell(i) != #[trigger] a.cell(j) by {
        assert(a.body[j] == m.body[j - 1]);
        assert(m.cell(j - 1) != next);
        if i >= 1 {
            assert(a.body[i] == m.body[i - 1]);
            assert(m.cell(i - 1) != m.cell(j - 1));
        }
    }
    assert forall|i: int| 1 <= i < n + 1 implies (#[trigger] a.cell(i)).within(a.grid_size) by {
        assert(a.body[i] == m.body[i - 1]);
        if i - 1 >= 1 {
            assert(m.cell(i - 1).within(m.grid_size));
        }
    }
    assert forall|p: GridPosition| a.covers(p) <==> (p == next || m.covers(p)) by {
        if a.covers(p) {
            let i = choose|i: int| 0 <= i < a.body.len() && #[trigger] a.cell(i) == p;
            if i >= 1 {
                assert(a.body[i] == m.body[i - 1]);
                assert(m.cell(i - 1) == p);
            }
        }
        if p == next {
            assert(a.cell(0) == p);
        }
        if m.covers(p) {
            let i = choose|i: int| 0 <= i < m.body.len() && #[trigger] m.cell(i) == p;
            assert(a.body[i + 1] == m.body[i]);
            assert(a.cell(i + 1) == p);
        }
    }
    assert(a.cells() =~= seq![m.next_head()] + m.cells()) by {
        assert forall|i: int| 0 <= i < n + 1 implies a.cells()[i] == (seq![m.next_head()]
            + m.cells())[i] by {
            if i >= 1 {
                assert(a.body[i] == m.body[i - 1]);
            }
        }
    }
}

/// The invariant speaks of the layout only: two boards that agree on grid,
/// segments, body, food and free cells meet it together, whatever their
/// directions and acting flags.
pub proof fn lemma_same_layout(m: BoardModel, a: BoardModel)
    requires
        a.grid_size == m.grid_size,
        a.segments == m.segments,
        a.body == m.body,
        a.food == m.food,
        a.free == m.free,
    ensures
        a.wf() == m.wf(),
        a.in_bounds() == m.in_bounds(),
        a.cells() == m.cells(),
        forall|p: GridPosition| a.covers(p) == m.covers(p),
{
    assert forall|i: int| #[trigger] a.cell(i) == m.cell(i) by {}
    assert forall|i: int| #[trigger] m.cell(i) == a.cell(i) by {}
    assert forall|i: int| #[trigger] a.role(i) == m.role(i) by {}
    assert forall|i: int| #[trigger] m.role(i) == a.role(i) by {}
    assert forall|p: GridPosition| a.covers(p) == m.covers(p) by {
        if a.covers(p) {
            let i = choose|i: int| 0 <= i < a.body.len() && #[trigger] a.cell(i) == p;
            assert(m.cell(i) == p);
        }
        if m.covers(p) {
            let i = choose|i: int| 0 <= i < m.body.len() && #[trigger] m.cell(i) == p;
            assert(a.cell(i) == p);
        }
    }
    assert(a.cells() =~= m.cells());
}

/// Every move keeps the invariant, provided the head was on the grid and the
/// cell drawn for the food was free.
pub proof fn lemma_step_preserves_wf(m: BoardModel, relocation: GridPosition)
    requires
        m.wf(),
        m.in_bounds(),
        m.outcome() == MoveOutcome::Ate ==> m.free.contains(relocation),
    ensures
        m.step(relocation).wf(),
        m.outcome() != MoveOutcome::Moved ==> m.step(relocation).in_bounds(),
{
    match m.outcome() {
        MoveOutcome::Collided | MoveOutcome::Filled => {
            lemma_same_layout(m, m.after_halt());
        },
        MoveOutcome::Ate => {
            lemma_grow(m, relocation);
        },
        MoveOutcome::Moved => {
            lemma_slide(m);
        },
    }
}

/// On a board that meets the invariant the snake's cells, the food's cell
/// and the free cells never overlap, and together they cover the grid. While
/// the head is on the grid they make up the grid exactly.
pub proof fn lemma_partition(m: BoardModel)
    requires
        m.wf(),
    ensures
        m.occupied().disjoint(m.free),
        !m.occupied().contains(m.food),
        !m.free.contains(m.food),
        full_grid(m.grid_size).subset_of(m.free.union(m.occupied()).insert(m.food)),
        m.in_bounds() ==> m.free.union(m.occupied()).insert(m.food) == full_grid(m.grid_size),
{
    assert forall|p: GridPosition| m.in_bounds() && m.covers(p) implies p.within(m.grid_size) by {
        let i = choose|i: int| 0 <= i < m.body.len() && #[trigger] m.cell(i) == p;
        if i >= 1 {
            assert(m.cell(i).within(m.grid_size));
        }
    }
    if m.in_bounds() {
        assert(m.free.union(m.occupied()).insert(m.food) =~= full_grid(m.grid_size));
    }
}

/// The snake never gets shorter: a move onto the food makes it longer by
/// exactly one segment, and every other move leaves its length alone.
pub proof fn lemma_length(m: BoardModel, relocation: GridPosition)
    requires
        m.body.len() >= 1,
    ensures
        m.outcome() == MoveOutcome::Ate ==> m.step(relocation).body.len() == m.body.len() + 1,
        m.outcome() != MoveOutcome::Ate ==> m.step(relocation).body.len() == m.body.len(),
{
}

/// A move that runs into the body, or onto food that has nowhere to go,
/// moves nothing: segments, body order, food and free cells stay as they
/// were, and only the direction taken is recorded.
pub proof fn lemma_halt_moves_nothing(m: BoardModel, relocation: GridPosition)
    requires
        m.outcome().ends_run(),
    ensures
        m.step(relocation).segments == m.segments,
        m.step(relocation).body == m.body,
        m.step(relocation).food == m.food,
        m.step(relocation).free == m.free,
        m.step(relocation).direction == m.direction,
        m.step(relocation).last_direction == m.direction,
        m.step(relocation).acting == m.acting,
        m.step(relocation).cells() == m.cells(),
{
    assert(m.step(relocation).cells() =~= m.cells());
}

/// The pending direction never reverses the last move: steering keeps it
/// so, and every move makes it so, since it records the direction taken.
pub proof fn lemma_never_reverses(
    m: BoardModel,
    keys: crate::snake::DirectionKeys,
    relocation: GridPosition,
)
    ensures
        m.step(relocation).direction != m.step(relocation).last_direction.spec_opposite(),
        m.direction != m.last_direction.spec_opposite() ==> crate::snake::steer(
            m.direction,
            m.last_direction,
            keys,
        ) != m.last_direction.spec_opposite(),
{
}

/// The game board. Its content is read through the view and the getters.
pub struct Board {
    grid_size: i32,
    segments: Vec<Segment>,
    snake: Snake,
    acting: bool,
    food: GridPosition,
    free_locations: FreeLocations,
}

impl View for Board {
    type V = BoardModel;

    closed spec fn view(&self) -> BoardModel {
        BoardModel {
            grid_size: self.grid_size as int,
            segments: self.segments@,
            body: Seq::new(self.snake.body@.len(), |i: int| self.snake.body@[i] as nat),
            direction: self.snake.direction,
            last_direction: self.snake.last_direction,
            acting: self.acting,
            food: self.food,
            free: self.free_locations@,
        }
    }
}

impl Board {
    /// The set of free cells is kept without repetition.
    pub closed spec fn rep_wf(&self) -> bool {
        self.free_locations.wf()
    }

    /// The board's invariant.
    pub open spec fn wf(&self) -> bool {
        self.rep_wf() && self@.wf()
    }

    /// Half-extent of the grid.
    pub fn grid_size(&self) -> (g: i32)
        ensures
            g == self@.grid_size,
    {
        self.grid_size
    }

    /// The cell that holds the food.
    pub fn food(&self) -> (p: GridPosition)
        ensures
            p == self@.food,
    {
        self.food
    }

    /// The snake, with the arena indices of its segments from head to tail.
    pub fn snake(&self) -> (s: &Snake)
        ensures
            s.body@.len() == self@.body.len(),
            forall|i: int| 0 <= i < s.body@.len() ==> #[trigger] s.body@[i] == self@.body[i],
            s.direction == self@.direction,
            s.last_direction == self@.last_direction,
    {
        &self.snake
    }

    /// The arena of segment records.
    pub fn segments(&self) -> (v: &Vec<Segment>)
        ensures
            v@ == self@.segments,
    {
        &self.segments
    }

    /// The cells that hold neither snake nor food.
    pub fn free_locations(&self) -> (f: &FreeLocations)
        ensures
            f@ == self@.free,
            self.rep_wf() ==> f.wf(),
    {
        &self.free_locations
    }

    /// Whether the snake is acting.
    pub fn acting(&self) -> (a: bool)
        ensures
            a == self@.acting,
    {
        self.acting
    }

    /// Marks the snake as acting or as resting. Nothing else changes.
    pub fn set_acting(&mut self, acting: bool)
        ensures
            final(self)@ == (BoardModel { acting, ..old(self)@ }),
            final(self).wf() == old(self).wf(),
            final(self)@.in_bounds() == old(self)@.in_bounds(),
    {
        self.acting = acting;
        proof {
            assert(self@.body =~= old(self)@.body);
            lemma_same_layout(old(self)@, self@);
        }
    }

    /// Number of segments of the snake.
    pub fn len(&self) -> (n: usize)
        ensures
            n == self@.body.len(),
    {
        self.snake.body.len()
    }

    /// The cell that the head lies on.
    pub fn head_position(&self) -> (p: GridPosition)
        requires
            self.wf(),
        ensures
            p == self@.head(),
    {
        let head_id = self.snake.body[0];
        assert(self@.body[0] == head_id);
        self.segments[head_id].position
    }

    /// The cell that the head would enter on the next move.
    pub fn pending_next_pos(&self) -> (p: GridPosition)
        requires
            self.wf(),
        ensures
            p == self@.next_head(),
    {
        self.head_position().neighbor(self.snake.direction)
    }

    /// Tells whether the head has left the grid.
    pub fn head_out_of_bounds(&self) -> (r: bool)
        requires
            self.wf(),
        ensures
            r == !self@.in_bounds(),
    {
        self.head_position().out_of_bounds(self.grid_size)
    }

    /// Takes the pressed signals to the snake's pending direction.
    pub fn steer(&mut self, keys: crate::snake::DirectionKeys)
        ensures
            final(self)@ == (BoardModel {
                direction: crate::snake::steer(
                    old(self)@.direction,
                    old(self)@.last_direction,
                    keys,
                ),
                ..old(self)@
            }),
            final(self).wf() == old(self).wf(),
            final(self)@.in_bounds() == old(self)@.in_bounds(),
    {
        crate::snake::player_input_system(keys, &mut self.snake);
        proof {
            assert(self@.body =~= old(self)@.body);
            lemma_same_layout(old(self)@, self@);
        }
    }

    /// Tells whether a body segment lies on `next`.
    fn body_on(&self, next: GridPosition) -> (r: bool)
        requires
            self.wf(),
            next == self@.next_head(),
        ensures
            r == self@.hits_body(),
    {
        let mut i: usize = 0;
        while i < self.snake.body.len()
            invariant
                self.wf(),
                next == self@.next_head(),
                i <= self.snake.body@.len(),
                forall|j: int|
                    0 <= j < i ==> !(#[trigger] self@.role(j) == SegmentRole::Body && self@.cell(j)
                        == next),
            decreases self.snake.body@.len() - i,
        {
            let id = self.snake.body[i];
            assert(self@.body[i as int] == id);
            assert(self@.body[i as int] < self@.segments.len());
            let segment = self.segments[id];
            if segment.role == SegmentRole::Body && segment.position == next {
                assert(self@.role(i as int) == SegmentRole::Body && self@.cell(i as int) == next);
                return true;
            }
            i += 1;
        }
        false
    }

    /// What the next move will come to.
    pub fn plan(&self) -> (o: MoveOutcome)
        requires
            self.wf(),
        ensures
            o == self@.outcome(),
    {
        let next = self.pending_next_pos();
        if self.body_on(next) {
            MoveOutcome::Collided
        } else if next == self.food {
            if self.free_locations.is_empty() {
                MoveOutcome::Filled
            } else {
                MoveOutcome::Ate
            }
        } else {
            MoveOutcome::Moved
        }
    }

    /// Records the direction taken without moving anything.
    fn halt(&mut self)
        requires
            old(self).wf(),
        ensures
            final(self).wf(),
            final(self)@ == old(self)@.after_halt(),
    {
        self.snake.last_direction = self.snake.direction;
        proof {
            assert(self@.body =~= old(self)@.body);
            lemma_same_layout(old(self)@, self@);
        }
    }

    /// Lets the snake eat: the head segment turns into body, a new head
    /// segment enters the arena on `next`, and the food goes to `relocation`.
    fn grow(&mut self, next: GridPosition, relocation: GridPosition)
        requires
            old(self).wf(),
            old(self)@.in_bounds(),
            next == old(self)@.next_head(),
            old(self)@.outcome() == MoveOutcome::Ate,
            old(self)@.free.contains(relocation),
        ensures
            final(self).wf(),
            final(self)@ == old(self)@.after_grow(relocation),
    {
        let head_id = self.snake.body[0];
        assert(old(self)@.body[0] == head_id);
        let head_pos = self.segments[head_id].position;
        self.segments[head_id] = Segment { position: head_pos, role: SegmentRole::Body };
        let fresh_id = self.segments.len();
        self.segments.push(Segment { position: next, role: SegmentRole::Head });
        self.snake.body.push_front(fresh_id);
        self.snake.last_direction = self.snake.direction;
        self.food = relocation;
        self.free_locations.remove(relocation);
        proof {
            lemma_grow(old(self)@, relocation);
            assert(self@.body =~= old(self)@.after_grow(relocation).body);
            assert(self@.segments =~= old(self)@.after_grow(relocation).segments);
        }
    }

    /// Moves the snake one cell: the tail segment is taken to `next` and to
    /// the front of the body as the new head.
    fn slide(&mut self, next: GridPosition)
        requires
            old(self).wf(),
            old(self)@.in_bounds(),
            next == old(self)@.next_head(),
            old(self)@.outcome() == MoveOutcome::Moved,
        ensures
            final(self).wf(),
            final(self)@ == old(self)@.after_slide(),
    {
        let ghost m = self@;
        let n = self.snake.body.len();
        let head_id = self.snake.body[0];
        let tail_id = self.snake.body[n - 1];
        let last_id = self.snake.body[n - 2];
        proof {
            assert(m.body[0] == head_id);
            assert(m.body[n - 1] == tail_id);
            assert(m.body[n - 2] == last_id);
            assert(m.body[0] < m.segments.len());
            assert(m.body[n - 1] < m.segments.len());
            assert(m.body[n - 2] < m.segments.len());
        }
        let tail_pos = self.segments[tail_id].position;
        let head_pos = self.segments[head_id].position;
        let last_pos = self.segments[last_id].position;
        self.free_locations.insert(tail_pos);
        self.segments[tail_id] = Segment { position: next, role: SegmentRole::Head };
        self.free_locations.remove(next);
        self.segments[head_id] = Segment { position: head_pos, role: SegmentRole::Body };
        self.snake.body.pop_back();
        self.snake.body.push_front(tail_id);
        self.segments[last_id] = Segment { position: last_pos, role: SegmentRole::Tail };
        self.snake.last_direction = self.snake.direction;
        proof {
            lemma_slide(m);
            assert(m.body[0] != m.body[n - 1]);
            assert(m.body[0] != m.body[n - 2]);
            assert(m.body[n - 2] != m.body[n - 1]);
            assert(self@.body =~= m.after_slide().body);
            assert(self@.segments =~= m.after_slide().segments);
        }
    }

    /// Makes one move, with `relocation` as the cell drawn for the food in
    /// case the snake eats. The direction taken is recorded first. A body
    /// segment ahead ends the run and moves nothing. Food ahead makes the
    /// snake longer by a new head and sends the food to `relocation`, unless
    /// no cell is free, which ends the run. Otherwise the tail segment goes
    /// to the cell ahead and becomes the head.
    pub fn advance(&mut self, relocation: GridPosition) -> (o: MoveOutcome)
        requires
            old(self).wf(),
            old(self)@.in_bounds(),
            old(self)@.outcome() == MoveOutcome::Ate ==> old(self)@.free.contains(relocation),
        ensures
            o == old(self)@.outcome(),
            final(self)@ == old(self)@.step(relocation),
            final(self).wf(),
    {
        let next = self.pending_next_pos();
        let o = self.plan();
        match o {
            MoveOutcome::Collided => self.halt(),
            MoveOutcome::Filled => self.halt(),
            MoveOutcome::Ate => self.grow(next, relocation),
            MoveOutcome::Moved => self.slide(next),
        }
        o
    }

    /// Makes one move, drawing the food's new cell at random among the free
    /// cells when the snake eats. The board afterwards is the one that
    /// [`Board::advance`] gives for the cell on which the food then lies.
    pub fn step(&mut self) -> (o: MoveOutcome)
        requires
            old(self).wf(),
            old(self)@.in_bounds(),
        ensures
            o == old(self)@.outcome(),
            o == MoveOutcome::Ate ==> old(self)@.free.contains(final(self)@.food),
            final(self)@ == old(self)@.step(final(self)@.food),
            final(self).wf(),
    {
        let next = self.pending_next_pos();
        let o = self.plan();
        match o {
            MoveOutcome::Collided => self.halt(),
            MoveOutcome::Filled => self.halt(),
            MoveOutcome::Ate => {
                let relocation = get_random_location(&self.free_locations);
                self.grow(next, relocation);
            },
            MoveOutcome::Moved => self.slide(next),
        }
        o
    }
}

/// Builds the board as a game starts: a snake of three segments on (0,0),
/// (0,1) and (0,2), tail first, heading up; the food on (-3,2); and all
/// other cells of the grid free.
pub fn spawn_game_entities(grid_size: i32) -> (board: Board)
    requires
        3 <= grid_size <= MAX_GRID_SIZE,
    ensures
        board.wf(),
        board@ == spawned(grid_size as int),
{
    let tail_pos = GridPosition::new(0, 0);
    let body_pos = GridPosition::new(0, 1);
    let head_pos = GridPosition::new(0, 2);
    let food_pos = GridPosition::new(-3, 2);
    let mut segments: Vec<Segment> = Vec::new();
    let mut snake_entity_list: VecDeque<usize> = VecDeque::new();
    snake_entity_list.push_front(segments.len());
    segments.push(Segment { position: tail_pos, role: SegmentRole::Tail });
    snake_entity_list.push_front(segments.len());
    segments.push(Segment { position: body_pos, role: SegmentRole::Body });
    snake_entity_list.push_front(segments.len());
    segments.push(Segment { position: head_pos, role: SegmentRole::Head });
    let mut free_locations = FreeLocations::new();
    init_free_locations(&mut free_locations, grid_size);
    free_locations.remove(tail_pos);
    free_locations.remove(body_pos);
    free_locations.remove(head_pos);
    free_locations.remove(food_pos);
    let board = Board {
        grid_size,
        segments,
        snake: Snake {
            body: snake_entity_list,
            direction: SnakeDirection::Up,
            last_direction: SnakeDirection::Up,
        },
        acting: false,
        food: food_pos,
        free_locations,
    };
    proof {
        lemma_spawned_wf(grid_size as int);
        assert(board@.body =~= spawned(grid_size as int).body);
        assert(board@.segments =~= spawned(grid_size as int).segments);
    }
    board
}

} // verus!
