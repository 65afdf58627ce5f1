//! Spatial cells, visibility views and the view differ.
//!
//! The world is partitioned into a 2D grid of fixed-size cells. A [`View`] is
//! an immutable snapshot of the region a participant can currently see: a
//! center cell plus a radius. The region covered by a view is a square — the
//! cells whose coordinates differ from the center by at most `radius` on each
//! axis. The differ relies on set semantics of that coverage alone, so the
//! shape is a pure function of `(center, radius)` with no hidden state.

use vstd::prelude::*;
use vstd::view::View as _;

verus! {

broadcast use vstd::seq_lib::lemma_seq_contains_after_push;

/// Coordinates of one cell of the spatial grid.
#[derive(Clone, Copy, PartialEq, Eq, Hash, Debug, Structural)]
pub struct ChunkPosition {
    pub x: i32,
    pub z: i32,
}

impl ChunkPosition {
    /// Squared Euclidean distance between two cells, as a mathematical integer.
    pub open spec fn spec_distance_squared(self, other: ChunkPosition) -> int {
        (self.x - other.x) * (self.x - other.x) + (self.z - other.z) * (self.z - other.z)
    }

    /// Squared Euclidean distance between two cells. Squared (rather than
    /// true) distance avoids a square root and preserves ordering, since
    /// distance is non-negative.
    pub fn distance_squared_to(&self, other: ChunkPosition) -> (r: u128)
        ensures
            r == self.spec_distance_squared(other),
    {
        let dx: i128 = self.x as i128 - other.x as i128;
        let dz: i128 = self.z as i128 - other.z as i128;
        assert((0 <= dx * dx <= 0x1_0000_0000i128 * 0x1_0000_0000i128) && (0 <= dz * dz
            <= 0x1_0000_0000i128 * 0x1_0000_0000i128)) by (nonlinear_arith)
            requires
                -0x1_0000_0000i128 <= dx <= 0x1_0000_0000i128,
                -0x1_0000_0000i128 <= dz <= 0x1_0000_0000i128,
        ;
        (dx * dx + dz * dz) as u128
    }
}

/// A participant's visibility region: a center cell and a radius.
///
/// Two views are compared only by the cells they cover; the covered region is
/// the square of side `2 * radius + 1` centered on `center`.
#[derive(Clone, Copy, PartialEq, Eq, Debug, Structural)]
pub struct View {
    pub center: ChunkPosition,
    pub radius: u32,
}

impl View {
    /// The view's coverage stays within the coordinate range of the grid:
    /// `center ± radius` does not leave `i32` on either axis.
    pub open spec fn wf(self) -> bool {
        &&& i32::MIN <= self.center.x - self.radius
        &&& self.center.x + self.radius <= i32::MAX
        &&& i32::MIN <= self.center.z - self.radius
        &&& self.center.z + self.radius <= i32::MAX
    }

    /// Whether `pos` lies in the square region covered by this view.
    pub open spec fn covers(self, pos: ChunkPosition) -> bool {
        &&& self.center.x - self.radius <= pos.x <= self.center.x + self.radius
        &&& self.center.z - self.radius <= pos.z <= self.center.z + self.radius
    }

    /// The view's center cell.
    pub fn center(&self) -> (c: ChunkPosition)
        ensures
            c == self.center,
    {
        self.center
    }

    /// Whether `pos` is one of the cells this view covers.
    pub fn contains(&self, pos: ChunkPosition) -> (r: bool)
        ensures
            r == self.covers(pos),
    {
        let lo_x: i64 = self.center.x as i64 - self.radius as i64;
        let hi_x: i64 = self.center.x as i64 + self.radius as i64;
        let lo_z: i64 = self.center.z as i64 - self.radius as i64;
        let hi_z: i64 = self.center.z as i64 + self.radius as i64;
        lo_x <= pos.x as i64 && pos.x as i64 <= hi_x && lo_z <= pos.z as i64 && pos.z as i64 <= hi_z
    }
    /// All cells covered by this view, row by row, without duplicates.
    pub fn cells(&self) -> (r: Vec<ChunkPosition>)
        requires
            self.wf(),
        ensures
            forall|p: ChunkPosition| #![all_triggers] r@.contains(p) <==> self.covers(p),
            r@.no_duplicates(),
    {
        let lo_x: i64 = self.center.x as i64 - self.radius as i64;
        let hi_x: i64 = self.center.x as i64 + self.radius as i64;
        let lo_z: i64 = self.center.z as i64 - self.radius as i64;
        let hi_z: i64 = self.center.z as i64 + self.radius as i64;
        let mut r: Vec<ChunkPosition> = Vec::new();
        let mut x: i64 = lo_x;
        while x <= hi_x
            invariant
                self.wf(),
                lo_x == self.center.x - self.radius,
                hi_x == self.center.x + self.radius,
                lo_z == self.center.z - self.radius,
                hi_z == self.center.z + self.radius,
                lo_x <= x <= hi_x + 1,
                forall|p: ChunkPosition| #![all_triggers]
                    r@.contains(p) <==> (self.covers(p) && p.x < x),
                r@.no_duplicates(),
            decreases hi_x + 1 - x,
        {
            let mut z: i64 = lo_z;
            while z <= hi_z
                invariant
                    self.wf(),
                    lo_x == self.center.x - self.radius,
                    hi_x == self.center.x + self.radius,
                    lo_z == self.center.z - self.radius,
                    hi_z == self.center.z + self.radius,
                    lo_x <= x <= hi_x,
                    lo_z <= z <= hi_z + 1,
                    forall|p: ChunkPosition| #![all_triggers]
                        r@.contains(p) <==> (self.covers(p) && (p.x < x || (p.x == x && p.z
                            < z))),
                    r@.no_duplicates(),
                decreases hi_z + 1 - z,
            {
                let cell = ChunkPosition { x: x as i32, z: z as i32 };
                let ghost prev = r@;
                r.push(cell);
                proof {
                    assert(cell.x == x && cell.z == z);
                    assert(r@ == prev.push(cell));
                    assert(!prev.contains(cell));
                }
                z = z + 1;
            }
            x = x + 1;
        }
        r
    }

    /// The cells covered by `self` but not by `other`, without duplicates.
    /// No ordering is implied by the difference itself.
    pub fn difference(&self, other: View) -> (r: Vec<ChunkPosition>)
        requires
            self.wf(),
        ensures
            forall|p: ChunkPosition| #![all_triggers]
                r@.contains(p) <==> (self.covers(p) && !other.covers(p)),
            r@.no_duplicates(),
    {
        let cs = self.cells();
        let mut r: Vec<ChunkPosition> = Vec::new();
        let mut i: usize = 0;
        while i < cs.len()
            invariant
                i <= cs@.len(),
                forall|p: ChunkPosition| #![all_triggers] cs@.contains(p) <==> self.covers(p),
                cs@.no_duplicates(),
                forall|p: ChunkPosition| #![all_triggers]
                    r@.contains(p) <==> (cs@.take(i as int).contains(p) && !other.covers(p)),
                r@.no_duplicates(),
            decreases cs@.len() - i,
        {
            let cell = cs[i];
            let ghost prefix = cs@.take(i as int);
            let ghost next_prefix = cs@.take(i as int + 1);
            proof {
                assert(next_prefix == prefix.push(cell));
                assert(!prefix.contains(cell)) by {
                    if prefix.contains(cell) {
                        let j = choose|j: int| 0 <= j < prefix.len() && prefix[j] == cell;
                        assert(cs@[j] == cs@[i as int]);
                    }
                }
            }
            if !other.contains(cell) {
                let ghost prev = r@;
                r.push(cell);
                proof {
                    assert(r@ == prev.push(cell));
                    assert(!prev.contains(cell));
                }
            }
            i = i + 1;
        }
        proof {
            assert(cs@.take(cs@.len() as int) == cs@);
        }
        r
    }
}

/// `s` is ordered by non-decreasing squared distance from `c`.
pub open spec fn sorted_by_distance(s: Seq<ChunkPosition>, c: ChunkPosition) -> bool {
    forall|i: int, j: int|
        0 <= i <= j < s.len() ==> s[i].spec_distance_squared(c) <= s[j].spec_distance_squared(c)
}

/// Reorders `v` by non-decreasing squared distance from `center`.
///
/// The result holds exactly the cells of `v` (which must hold no duplicates);
/// ties keep the order in which `v` listed them.
pub fn sort_by_distance_from(v: Vec<ChunkPosition>, center: ChunkPosition) -> (r: Vec<
    ChunkPosition,
>)
    requires
        v@.no_duplicates(),
    ensures
        forall|p: ChunkPosition| #![all_triggers] r@.contains(p) <==> v@.contains(p),
        r@.len() == v@.len(),
        r@.no_duplicates(),
        sorted_by_distance(r@, center),
{
    let mut r: Vec<ChunkPosition> = Vec::new();
    let mut i: usize = 0;
    while i < v.len()
        invariant
            i <= v@.len(),
            v@.no_duplicates(),
            r@.len() == i,
            forall|p: ChunkPosition| #![all_triggers] r@.contains(p) <==> v@.take(i as int).contains(p),
            r@.no_duplicates(),
            sorted_by_distance(r@, center),
        decreases v@.len() - i,
    {
        let cell = v[i];
        let d = cell.distance_squared_to(center);
        let mut k: usize = 0;
        while k < r.len() && r[k].distance_squared_to(center) <= d
            invariant
                k <= r@.len(),
                d == cell.spec_distance_squared(center),
                forall|m: int|
                    0 <= m < k ==> #[trigger] r@[m].spec_distance_squared(center)
                        <= cell.spec_distance_squared(center),
            decreases r@.len() - k,
        {
            k = k + 1;
        }
        let ghost prev = r@;
        let ghost prefix = v@.take(i as int);
        let ghost next_prefix = v@.take(i + 1 as int);
        r.insert(k, cell);
        proof {
            prev.insert_ensures(k as int, cell);
            assert(next_prefix == prefix.push(cell));
            assert(!prefix.contains(cell)) by {
                if prefix.contains(cell) {
                    let j = choose|j: int| 0 <= j < prefix.len() && prefix[j] == cell;
                    assert(v@[j] == v@[i as int]);
                }
            }
            // membership of the result after the insertion
            assert(forall|p: ChunkPosition| #[trigger] r@.contains(p) <==> (prev.contains(p) || p
                == cell)) by {
                assert(r@[k as int] == cell);
                assert(forall|m: int| 0 <= m < k ==> r@[m] == prev[m]);
                assert(forall|m: int| k <= m < prev.len() ==> r@[m + 1] == prev[m]);
                assert(forall|m: int| 0 <= m < r@.len() ==> (r@[m] == cell || (0 <= m < k
                    && r@[m] == prev[m]) || (k < m && r@[m] == prev[m - 1])));
            }
            assert(forall|p: ChunkPosition| #[trigger] next_prefix.contains(p) <==> (
                prefix.contains(p) || p == cell)) by {
                assert(forall|j: int| 0 <= j < prefix.len() ==> next_prefix[j] == prefix[j]);
                assert(next_prefix[prefix.len() as int] == cell);
            }
            // no duplicates after the insertion
            assert(r@.no_duplicates()) by {
                assert(!prev.contains(cell));
                assert(forall|m: int, n: int|
                    0 <= m < n < r@.len() ==> r@[m] != r@[n]) by {
                    assert(forall|m: int| 0 <= m < k ==> r@[m] == prev[m]);
                    assert(forall|m: int| k < m < r@.len() ==> r@[m] == prev[m - 1]);
                    assert(forall|m: int| 0 <= m < prev.len() && prev[m] == cell
                        ==> prev.contains(cell));
                }
            }
            // sortedness after the insertion
            assert(sorted_by_distance(r@, center)) by {
                assert(k == prev.len() || prev[k as int].spec_distance_squared(center)
                    > cell.spec_distance_squared(center));
                assert(forall|m: int| 0 <= m < k ==> r@[m] == prev[m]);
                assert(forall|m: int| k < m < r@.len() ==> r@[m] == prev[m - 1]);
                assert(r@[k as int] == cell);
            }
        }
        i = i + 1;
    }
    proof {
        assert(v@.take(v@.len() as int) == v@);
        assert(r@.len() == v@.len());
    }
    r
}

/// The set of cells a view covers.
pub open spec fn cell_set(v: View) -> Set<ChunkPosition> {
    Set::new(|p: ChunkPosition| v.covers(p))
}

/// The cells covered by `a` but not by `b`, as a set.
pub open spec fn difference_set(a: View, b: View) -> Set<ChunkPosition> {
    cell_set(a).difference(cell_set(b))
}

/// Law: for any views `o` and `n`, `difference(o, n)` and `difference(n, o)`
/// are disjoint, and their union equals the symmetric difference of the two
/// views' cell sets.
pub proof fn lemma_difference_partition(o: View, n: View)
    ensures
        difference_set(o, n).intersect(difference_set(n, o)) =~= Set::<ChunkPosition>::empty(),
        difference_set(o, n).union(difference_set(n, o)) =~= cell_set(o).union(cell_set(
            n,
        )).difference(cell_set(o).intersect(cell_set(n))),
{
}

} // verus!
