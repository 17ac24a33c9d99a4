//! The set of grid cells that neither the snake nor the food occupies.

use vstd::prelude::*;
use std::collections::HashMap;
use crate::grid::GridPosition;

verus! {

broadcast use vstd::std_specs::hash::group_hash_axioms;

/// Every cell of the square board of half-extent `extent`.
pub open spec fn full_grid(extent: int) -> Set<GridPosition> {
    Set::new(|p: GridPosition| p.within(extent))
}

/// Number of values that one coordinate can take.
const COORDINATE_SPAN: u64 = 0x1_0000_0000;

/// A number that stands for the cell `p` alone: its two coordinates, each
/// counted from the smallest value that a coordinate can take, written one
/// after the other.
spec fn cell_code(p: GridPosition) -> u64 {
    ((p.x - i32::MIN) * COORDINATE_SPAN + (p.y - i32::MIN)) as u64
}

/// Different cells have different codes.
proof fn lemma_cell_code_is_injective(p: GridPosition, q: GridPosition)
    ensures
        cell_code(p) == cell_code(q) <==> p == q,
{
    let a = p.x - i32::MIN;
    let b = p.y - i32::MIN;
    let c = q.x - i32::MIN;
    let d = q.y - i32::MIN;
    assert(0 <= a < 0x1_0000_0000 && 0 <= b < 0x1_0000_0000);
    assert(0 <= c < 0x1_0000_0000 && 0 <= d < 0x1_0000_0000);
    assert(cell_code(p) == a * 0x1_0000_0000 + b);
    assert(cell_code(q) == c * 0x1_0000_0000 + d);
    if cell_code(p) == cell_code(q) {
        assert(a == c);
        assert(b == d);
    }
}

/// The code of the cell `p`.
fn code_of(p: GridPosition) -> (code: u64)
    ensures
        code == cell_code(p),
{
    let high: u64 = (p.x as i64 - i32::MIN as i64) as u64;
    let low: u64 = (p.y as i64 - i32::MIN as i64) as u64;
    high * COORDINATE_SPAN + low
}

/// A finite set of cells that can be indexed, so that a uniformly drawn index
/// picks a uniformly drawn member. The cells are kept in a vector in which
/// none occurs twice, and a table gives each member's place in the vector by
/// its code, so that looking a cell up, adding it and taking it out need no
/// walk through the vector.
pub struct FreeLocations {
    cells: Vec<GridPosition>,
    places: HashMap<u64, usize>,
}

impl View for FreeLocations {
    type V = Set<GridPosition>;

    closed spec fn view(&self) -> Set<GridPosition> {
        self.cells@.to_set()
    }
}

impl FreeLocations {
    /// The cells in the order in which an index addresses them.
    pub closed spec fn order(&self) -> Seq<GridPosition> {
        self.cells@
    }

    /// No cell is held twice, and the table of places names, for each
    /// member and for nothing else, the place at which the member stands.
    pub closed spec fn wf(&self) -> bool {
        &&& self.cells@.no_duplicates()
        &&& forall|i: int|
            0 <= i < self.cells@.len() ==> self.places@.contains_key(
                #[trigger] cell_code(self.cells@[i]),
            ) && self.places@[cell_code(self.cells@[i])] == i
        &&& forall|k: u64| #[trigger]
            self.places@.contains_key(k) ==> self.places@[k] < self.cells@.len() && cell_code(
                self.cells@[self.places@[k] as int],
            ) == k
    }

    /// The indexable order lists exactly the members, each once.
    pub proof fn lemma_order(&self)
        requires
            self.wf(),
        ensures
            self.order().no_duplicates(),
            self.order().to_set() == self@,
            self@.finite(),
            self@.len() == self.order().len(),
            forall|p: GridPosition| self@.contains(p) <==> self.order().contains(p),
    {
        self.cells@.unique_seq_to_set();
        vstd::seq_lib::seq_to_set_is_finite(self.cells@);
        assert forall|p: GridPosition| self@.contains(p) <==> self.order().contains(p) by {}
    }

    /// The empty set.
    pub fn new() -> (s: FreeLocations)
        ensures
            s.wf(),
            s@ == Set::<GridPosition>::empty(),
    {
        let s = FreeLocations { cells: Vec::new(), places: HashMap::new() };
        assert(s.cells@.to_set() =~= Set::<GridPosition>::empty());
        s
    }

    /// Number of cells in the set.
    pub fn len(&self) -> (n: usize)
        requires
            self.wf(),
        ensures
            n == self@.len(),
            n == self.order().len(),
    {
        proof {
            self.lemma_order();
        }
        self.cells.len()
    }

    /// Tells whether the set has no member.
    pub fn is_empty(&self) -> (r: bool)
        ensures
            r <==> self@ == Set::<GridPosition>::empty(),
    {
        let r = self.cells.len() == 0;
        proof {
            if r {
                assert(self@ =~= Set::<GridPosition>::empty());
            } else {
                assert(self.cells@.contains(self.cells@[0]));
                assert(self@.contains(self.cells@[0]));
            }
        }
        r
    }

    /// Place of `p` in the indexable order, if it is a member.
    fn position(&self, p: GridPosition) -> (r: Option<usize>)
        requires
            self.wf(),
        ensures
            match r {
                Some(i) => i < self.cells@.len() && self.cells@[i as int] == p,
                None => !self.cells@.contains(p),
            },
    {
        let code = code_of(p);
        match self.places.get(&code) {
            Some(place) => {
                proof {
                    lemma_cell_code_is_injective(self.cells@[*place as int], p);
                }
                Some(*place)
            },
            None => {
                proof {
                    if self.cells@.contains(p) {
                        let i = choose|i: int| 0 <= i < self.cells@.len() && self.cells@[i] == p;
                        assert(self.places@.contains_key(cell_code(self.cells@[i])));
                    }
                }
                None
            },
        }
    }

    /// Tells whether `p` is a member.
    pub fn contains(&self, p: GridPosition) -> (r: bool)
        requires
            self.wf(),
        ensures
            r == self@.contains(p),
    {
        self.position(p).is_some()
    }

    /// Appends a cell that is known to be absent.
    fn push_new(&mut self, p: GridPosition)
        requires
            old(self).wf(),
            !old(self)@.contains(p),
        ensures
            final(self).wf(),
            final(self)@ == old(self)@.insert(p),
            final(self).order() == old(self).order().push(p),
    {
        let place = self.cells.len();
        self.cells.push(p);
        self.places.insert(code_of(p), place);
        proof {
            let before = old(self).cells@;
            let after = self.cells@;
            assert forall|q: GridPosition| after.contains(q) <==> (before.contains(q) || q == p) by {
                if before.contains(q) {
                    let j = choose|j: int| 0 <= j < before.len() && before[j] == q;
                    assert(after[j] == q);
                }
                if q == p {
                    assert(after[after.len() - 1] == p);
                }
            }
            assert(after.to_set() =~= before.to_set().insert(p));
            assert forall|i: int| 0 <= i < after.len() implies self.places@.contains_key(
                #[trigger] cell_code(after[i]),
            ) && self.places@[cell_code(after[i])] == i by {
                if i < before.len() {
                    assert(before.contains(before[i]));
                    lemma_cell_code_is_injective(before[i], p);
                    assert(old(self).places@.contains_key(cell_code(before[i])));
                }
            }
            assert forall|k: u64| #[trigger] self.places@.contains_key(k) implies self.places@[k]
                < after.len() && cell_code(after[self.places@[k] as int]) == k by {
                if k != cell_code(p) {
                    assert(old(self).places@.contains_key(k));
                }
            }
            assert forall|i: int, j: int| 0 <= i < after.len() && 0 <= j < after.len() && i
                != j implies after[i] != after[j] by {
                if i < before.len() {
                    assert(before.contains(before[i]));
                }
                if j < before.len() {
                    assert(before.contains(before[j]));
                }
            }
        }
    }

    /// Adds `p`. Returns whether it was absent before.
    pub fn insert(&mut self, p: GridPosition) -> (added: bool)
        requires
            old(self).wf(),
        ensures
            final(self).wf(),
            final(self)@ == old(self)@.insert(p),
            added == !old(self)@.contains(p),
    {
        match self.position(p) {
            Some(_) => {
                assert(self@ =~= old(self)@.insert(p));
                false
            },
            None => {
                self.push_new(p);
                true
            },
        }
    }

    /// Takes `p` out. Returns whether it was a member. The member that
    /// stood last takes the place that `p` leaves.
    pub fn remove(&mut self, p: GridPosition) -> (removed: bool)
        requires
            old(self).wf(),
        ensures
            final(self).wf(),
            final(self)@ == old(self)@.remove(p),
            removed == old(self)@.contains(p),
    {
        match self.position(p) {
            Some(i) => {
                let ghost before = self.cells@;
                let ghost places_before = self.places@;
                let last = self.cells.len() - 1;
                let moved = self.cells[last];
                self.cells.swap_remove(i);
                self.places.remove(&code_of(p));
                if i != last {
                    self.places.insert(code_of(moved), i);
                }
                proof {
                    let after = self.cells@;
                    let places = self.places@;
                    lemma_cell_code_is_injective(moved, p);
                    assert forall|a: int| 0 <= a < after.len() implies after[a] == before[if a
                        == i {
                        last as int
                    } else {
                        a
                    }] by {}
                    assert forall|a: int, b: int|
                        0 <= a < after.len() && 0 <= b < after.len() && a != b implies after[a]
                        != after[b] by {
                        let sa = if a == i { last as int } else { a };
                        let sb = if b == i { last as int } else { b };
                        assert(after[a] == before[sa]);
                        assert(after[b] == before[sb]);
                    }
                    assert forall|q: GridPosition|
                        after.contains(q) <==> (before.contains(q) && q != p) by {
                        if after.contains(q) {
                            let a = choose|a: int| 0 <= a < after.len() && after[a] == q;
                            let sa = if a == i { last as int } else { a };
                            assert(before[sa] == q);
                        }
                        if before.contains(q) && q != p {
                            let b = choose|b: int| 0 <= b < before.len() && before[b] == q;
                            if b == last {
                                assert(after[i as int] == q);
                            } else {
                                assert(after[b] == q);
                            }
                        }
                    }
                    assert(after.to_set() =~= before.to_set().remove(p));
                    assert forall|a: int| 0 <= a < after.len() implies places.contains_key(
                        #[trigger] cell_code(after[a]),
                    ) && places[cell_code(after[a])] == a by {
                        let sa = if a == i { last as int } else { a };
                        assert(after[a] == before[sa]);
                        assert(places_before.contains_key(cell_code(before[sa])));
                        lemma_cell_code_is_injective(before[sa], p);
                        lemma_cell_code_is_injective(before[sa], moved);
                    }
                    assert forall|k: u64| #[trigger] places.contains_key(k) implies places[k]
                        < after.len() && cell_code(after[places[k] as int]) == k by {
                        if i != last && k == cell_code(moved) {
                            assert(after[i as int] == moved);
                        } else {
                            assert(places_before.contains_key(k));
                            let place = places_before[k] as int;
                            assert(cell_code(before[place]) == k);
                            lemma_cell_code_is_injective(before[place], p);
                            lemma_cell_code_is_injective(before[place], moved);
                            assert(place != i);
                            assert(place != last);
                            assert(after[place] == before[place]);
                        }
                    }
                }
                true
            },
            None => {
                assert(self@ =~= old(self)@.remove(p));
                false
            },
        }
    }

    /// Empties the set.
    pub fn clear(&mut self)
        ensures
            final(self).wf(),
            final(self)@ == Set::<GridPosition>::empty(),
    {
        self.cells.clear();
        self.places.clear();
        assert(self.cells@.to_set() =~= Set::<GridPosition>::empty());
    }

    /// The member at place `index` of the indexable order.
    pub fn nth(&self, index: usize) -> (p: GridPosition)
        requires
            index < self.order().len(),
        ensures
            p == self.order()[index as int],
            self@.contains(p),
    {
        self.cells[index]
    }
}

/// Draws an index below `bound` from the thread's generator, by
/// `rand::Rng::gen_range` on `rand::thread_rng()` with the bounds 0 and
/// `bound`. rand documents the result as lying in the half-open range from
/// the low bound to the high one, and the call as panicking when the range is
/// empty; nothing more is claimed, and two draws may differ.
#[verifier::external_body]
fn random_index(bound: usize) -> (index: usize)
    requires
        bound > 0,
    ensures
        index < bound,
{
    rand::Rng::gen_range(&mut rand::thread_rng(), 0, bound)
}

/// Draws one member of `locations` at random, each with the same chance.
pub fn get_random_location(locations: &FreeLocations) -> (p: GridPosition)
    requires
        locations.wf(),
        locations@ != Set::<GridPosition>::empty(),
    ensures
        locations@.contains(p),
{
    let n = locations.len();
    proof {
        locations.lemma_order();
        if n == 0 {
            assert(locations@ =~= Set::<GridPosition>::empty());
        }
    }
    let index = random_index(n);
    locations.nth(index)
}

/// Refills `free_locations` with every cell of the board of half-extent
/// `grid_size`, whatever it held before. A negative half-extent leaves it
/// empty.
pub fn init_free_locations(free_locations: &mut FreeLocations, grid_size: i32)
    requires
        grid_size < i32::MAX,
    ensures
        final(free_locations).wf(),
        final(free_locations)@ == full_grid(grid_size as int),
{
    free_locations.clear();
    if grid_size < 0 {
        assert(free_locations@ =~= full_grid(grid_size as int));
        return ;
    }
    let mut x: i32 = -grid_size;
    while x <= grid_size
        invariant
            0 <= grid_size < i32::MAX,
            -grid_size <= x <= grid_size + 1,
            free_locations.wf(),
            forall|p: GridPosition|
                #[trigger] free_locations@.contains(p) <==> (p.within(grid_size as int) && p.x < x),
        decreases grid_size + 1 - x,
    {
        let mut y: i32 = -grid_size;
        while y <= grid_size
            invariant
                0 <= grid_size < i32::MAX,
                -grid_size <= x <= grid_size,
                -grid_size <= y <= grid_size + 1,
                free_locations.wf(),
                forall|p: GridPosition|
                    #[trigger] free_locations@.contains(p) <==> (p.within(grid_size as int) && (p.x
                        < x || (p.x == x && p.y < y))),
            decreases grid_size + 1 - y,
        {
            free_locations.push_new(GridPosition::new(x, y));
            y += 1;
        }
        x += 1;
    }
    assert(free_locations@ =~= full_grid(grid_size as int));
}

} // verus!
