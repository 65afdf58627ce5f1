//! Tests for the spatial views and the view differ.

use tick_core::events::ViewUpdateEvent;
use tick_core::view::ChunkPosition;
use tick_core::view::View;

fn pos(x: i32, z: i32) -> ChunkPosition {
    ChunkPosition { x, z }
}

#[test]
fn distance_squared_examples() {
    assert_eq!(pos(0, 0).distance_squared_to(pos(0, 0)), 0);
    assert_eq!(pos(0, 0).distance_squared_to(pos(3, 4)), 25);
    assert_eq!(pos(-2, 1).distance_squared_to(pos(1, -3)), 25);
    assert_eq!(
        pos(i32::MIN, i32::MIN).distance_squared_to(pos(i32::MAX, i32::MAX)),
        2 * (u32::MAX as u128) * (u32::MAX as u128)
    );
}

#[test]
fn view_contains_square_region() {
    let v = View { center: pos(2, -1), radius: 1 };
    assert!(v.contains(pos(2, -1)));
    assert!(v.contains(pos(1, -2)));
    assert!(v.contains(pos(3, 0)));
    assert!(!v.contains(pos(4, -1)));
    assert!(!v.contains(pos(2, 1)));
}

#[test]
fn cells_radius_zero() {
    let v = View { center: pos(5, 7), radius: 0 };
    let cells = v.cells();
    assert_eq!(cells, vec![pos(5, 7)]);
}

#[test]
fn cells_radius_one_covers_nine() {
    let v = View { center: pos(0, 0), radius: 1 };
    let cells = v.cells();
    assert_eq!(cells.len(), 9);
    for x in -1..=1 {
        for z in -1..=1 {
            assert!(cells.contains(&pos(x, z)));
        }
    }
}

#[test]
fn difference_of_disjoint_views_is_whole_view() {
    let a = View { center: pos(0, 0), radius: 1 };
    let b = View { center: pos(10, 10), radius: 1 };
    let d = a.difference(b);
    assert_eq!(d.len(), 9);
    for c in &d {
        assert!(a.contains(*c));
        assert!(!b.contains(*c));
    }
}

/// The two differences are disjoint and together are exactly the symmetric
/// difference of the covered cell sets.
#[test]
fn difference_partition_concrete() {
    let o = View { center: pos(0, 0), radius: 2 };
    let n = View { center: pos(1, -1), radius: 1 };
    let removed = o.difference(n);
    let added = n.difference(o);
    for c in &removed {
        assert!(!added.contains(c));
    }
    for c in &added {
        assert!(!removed.contains(c));
    }
    // every cell of either region lands in exactly the right bucket
    for x in -3..5 {
        for z in -5..4 {
            let c = pos(x, z);
            let in_o = o.contains(c);
            let in_n = n.contains(c);
            assert_eq!(removed.contains(&c), in_o && !in_n);
            assert_eq!(added.contains(&c), in_n && !in_o);
        }
    }
}

#[test]
fn view_update_equal_views_is_empty() {
    let v = View { center: pos(3, 3), radius: 4 };
    let ev = ViewUpdateEvent::new(v, v);
    assert!(ev.new_chunks.is_empty());
    assert!(ev.old_chunks.is_empty());
}

/// `added` is sorted by non-decreasing squared distance from the new center,
/// `removed` from the old center.
#[test]
fn view_update_sorted_by_distance() {
    let o = View { center: pos(0, 0), radius: 2 };
    let n = View { center: pos(2, 1), radius: 2 };
    let ev = ViewUpdateEvent::new(o, n);
    for w in ev.new_chunks.windows(2) {
        assert!(
            w[0].distance_squared_to(n.center()) <= w[1].distance_squared_to(n.center())
        );
    }
    for w in ev.old_chunks.windows(2) {
        assert!(
            w[0].distance_squared_to(o.center()) <= w[1].distance_squared_to(o.center())
        );
    }
}

#[test]
fn view_update_deterministic() {
    let o = View { center: pos(0, 0), radius: 2 };
    let n = View { center: pos(-1, 2), radius: 2 };
    let first = ViewUpdateEvent::new(o, n);
    let second = ViewUpdateEvent::new(o, n);
    assert_eq!(first.new_chunks, second.new_chunks);
    assert_eq!(first.old_chunks, second.old_chunks);
}

/// End-to-end: shifting a radius-1 view one column to the right adds the new
/// rightmost column, removes the old leftmost column, and leaves the six
/// shared cells alone.
#[test]
fn view_update_shift_one_column() {
    let o = View { center: pos(0, 0), radius: 1 };
    let n = View { center: pos(1, 0), radius: 1 };
    let ev = ViewUpdateEvent::new(o, n);

    assert_eq!(ev.new_chunks.len(), 3);
    assert_eq!(ev.new_chunks[0], pos(2, 0));
    assert!(ev.new_chunks[1..].contains(&pos(2, -1)));
    assert!(ev.new_chunks[1..].contains(&pos(2, 1)));

    assert_eq!(ev.old_chunks.len(), 3);
    assert_eq!(ev.old_chunks[0], pos(-1, 0));
    assert!(ev.old_chunks[1..].contains(&pos(-1, -1)));
    assert!(ev.old_chunks[1..].contains(&pos(-1, 1)));

    for x in 0..=1 {
        for z in -1..=1 {
            let shared = pos(x, z);
            assert!(!ev.new_chunks.contains(&shared));
            assert!(!ev.old_chunks.contains(&shared));
        }
    }
}
