use snake_core::free::get_random_location;
use snake_core::free::init_free_locations;
use snake_core::free::FreeLocations;
use snake_core::grid::GridPosition;

#[test]
fn new_set_is_empty() {
    let free = FreeLocations::new();
    assert_eq!(free.len(), 0);
    assert!(free.is_empty());
    assert!(!free.contains(GridPosition::new(0, 0)));
}

#[test]
fn insert_reports_whether_cell_was_new() {
    let mut free = FreeLocations::new();
    assert!(free.insert(GridPosition::new(1, 2)));
    assert!(!free.insert(GridPosition::new(1, 2)));
    assert!(free.insert(GridPosition::new(2, 1)));
    assert_eq!(free.len(), 2);
    assert!(free.contains(GridPosition::new(1, 2)));
    assert!(free.contains(GridPosition::new(2, 1)));
    assert!(!free.contains(GridPosition::new(2, 2)));
}

#[test]
fn remove_reports_whether_cell_was_there() {
    let mut free = FreeLocations::new();
    free.insert(GridPosition::new(1, 2));
    free.insert(GridPosition::new(2, 1));
    free.insert(GridPosition::new(3, 3));
    assert!(free.remove(GridPosition::new(1, 2)));
    assert!(!free.remove(GridPosition::new(1, 2)));
    assert_eq!(free.len(), 2);
    assert!(!free.contains(GridPosition::new(1, 2)));
    assert!(free.contains(GridPosition::new(2, 1)));
    assert!(free.contains(GridPosition::new(3, 3)));
}

#[test]
fn removal_keeps_every_other_member_in_reach() {
    let mut free = FreeLocations::new();
    for x in 0..5 {
        free.insert(GridPosition::new(x, -x));
    }
    assert!(free.remove(GridPosition::new(1, -1)));
    assert!(free.remove(GridPosition::new(4, -4)));
    assert!(free.remove(GridPosition::new(0, 0)));
    assert_eq!(free.len(), 2);
    let left: Vec<GridPosition> = (0..free.len()).map(|i| free.nth(i)).collect();
    assert!(left.contains(&GridPosition::new(2, -2)));
    assert!(left.contains(&GridPosition::new(3, -3)));
    assert!(free.contains(GridPosition::new(2, -2)));
    assert!(free.contains(GridPosition::new(3, -3)));
    assert!(!free.contains(GridPosition::new(0, 0)));
    assert!(free.insert(GridPosition::new(0, 0)));
    assert!(free.remove(GridPosition::new(3, -3)));
    assert!(free.remove(GridPosition::new(2, -2)));
    assert!(free.remove(GridPosition::new(0, 0)));
    assert!(free.is_empty());
    assert!(!free.remove(GridPosition::new(0, 0)));
}

#[test]
fn cells_that_share_a_coordinate_are_told_apart() {
    let mut free = FreeLocations::new();
    let corners = [
        GridPosition::new(i32::MIN, i32::MIN),
        GridPosition::new(i32::MIN, i32::MAX),
        GridPosition::new(i32::MAX, i32::MIN),
        GridPosition::new(i32::MAX, i32::MAX),
        GridPosition::new(0, -1),
        GridPosition::new(-1, 0),
        GridPosition::new(-1, -1),
        GridPosition::new(0, 0),
    ];
    for corner in corners {
        assert!(free.insert(corner));
    }
    assert_eq!(free.len(), 8);
    for corner in corners {
        assert!(free.contains(corner));
    }
    assert!(!free.contains(GridPosition::new(1, 0)));
    assert!(free.remove(GridPosition::new(-1, 0)));
    assert!(free.contains(GridPosition::new(0, -1)));
    assert!(!free.contains(GridPosition::new(-1, 0)));
}

#[test]
fn clear_empties_the_set() {
    let mut free = FreeLocations::new();
    free.insert(GridPosition::new(1, 2));
    free.clear();
    assert!(free.is_empty());
    assert!(!free.contains(GridPosition::new(1, 2)));
}

#[test]
fn nth_walks_every_member_once() {
    let mut free = FreeLocations::new();
    init_free_locations(&mut free, 1);
    let mut seen: Vec<GridPosition> = Vec::new();
    for i in 0..free.len() {
        let p = free.nth(i);
        assert!(free.contains(p));
        assert!(!seen.contains(&p));
        seen.push(p);
    }
    assert_eq!(seen.len(), 9);
}

#[test]
fn init_fills_the_whole_grid() {
    let mut free = FreeLocations::new();
    free.insert(GridPosition::new(40, 40));
    init_free_locations(&mut free, 3);
    assert_eq!(free.len(), 49);
    for x in -3..=3 {
        for y in -3..=3 {
            assert!(free.contains(GridPosition::new(x, y)));
        }
    }
    assert!(!free.contains(GridPosition::new(4, 0)));
    assert!(!free.contains(GridPosition::new(0, -4)));
    assert!(!free.contains(GridPosition::new(40, 40)));
}

#[test]
fn init_with_negative_extent_holds_nothing() {
    let mut free = FreeLocations::new();
    free.insert(GridPosition::new(0, 0));
    init_free_locations(&mut free, -1);
    assert!(free.is_empty());
    assert_eq!(free.len(), 0);
}

#[test]
fn init_with_zero_extent_holds_the_origin_only() {
    let mut free = FreeLocations::new();
    init_free_locations(&mut free, 0);
    assert_eq!(free.len(), 1);
    assert!(free.contains(GridPosition::new(0, 0)));
}

#[test]
fn random_location_of_singleton_is_its_member() {
    let mut free = FreeLocations::new();
    free.insert(GridPosition::new(-2, 5));
    for _ in 0..20 {
        assert_eq!(get_random_location(&free), GridPosition::new(-2, 5));
    }
}

#[test]
fn random_location_is_a_member() {
    let mut free = FreeLocations::new();
    init_free_locations(&mut free, 2);
    free.remove(GridPosition::new(0, 0));
    for _ in 0..200 {
        let p = get_random_location(&free);
        assert!(free.contains(p));
        assert_ne!(p, GridPosition::new(0, 0));
    }
}

#[test]
fn random_location_reaches_more_than_one_member() {
    let mut free = FreeLocations::new();
    init_free_locations(&mut free, 3);
    let first = get_random_location(&free);
    let mut other = false;
    for _ in 0..2000 {
        if get_random_location(&free) != first {
            other = true;
        }
    }
    assert!(other);
}
