use vstd::prelude::*;
use vstd::set_lib::lemma_len_subset;
use crate::geometry::{cell, in_grid, sentinel, Point, CAPACITY, SIDE};

verus! {

/// Constant added to the squared frame number when picking a fruit cell.
pub const FRUIT_SEED: u64 = 32415412;

/// The cells among the first `n` in row-major order that no segment of `segs` occupies.
pub open spec fn free_cells_upto(segs: Seq<Point>, n: nat) -> Seq<Point>
    decreases n,
{
    if n == 0 {
        Seq::empty()
    } else {
        let rest = free_cells_upto(segs, (n - 1) as nat);
        if segs.contains(cell(n - 1)) {
            rest
        } else {
            rest.push(cell(n - 1))
        }
    }
}

/// Every grid cell that no segment of `segs` occupies, in row-major order.
pub open spec fn free_cells(segs: Seq<Point>) -> Seq<Point> {
    free_cells_upto(segs, CAPACITY as nat)
}

/// The index picked among `count` candidates on frame `frame_count`.
pub open spec fn pick_index(frame_count: u32, count: nat) -> int {
    (frame_count * frame_count + FRUIT_SEED) % (count as int)
}

/// Where a fruit is placed on frame `frame_count` around the segments `segs`: the picked
/// free cell, or the sentinel when no cell is free.
pub open spec fn fruit_spot(segs: Seq<Point>, frame_count: u32) -> Point {
    let free = free_cells(segs);
    if free.len() == 0 {
        sentinel()
    } else {
        free[pick_index(frame_count, free.len())]
    }
}

/// Picks one of `available_locations` from the frame counter: index
/// `(frame_count * frame_count + FRUIT_SEED) % count`, computed without overflow.
pub fn get_random_location(frame_count: u32, available_locations: Vec<Point>) -> (r: Point)
    requires
        available_locations@.len() > 0,
    ensures
        r == available_locations@[pick_index(frame_count, available_locations@.len())],
{
    let fc: u64 = frame_count as u64;
    assert(fc * fc <= 0xFFFF_FFFE_0000_0001u64) by (nonlinear_arith)
        requires
            fc <= 0xFFFF_FFFFu64,
    ;
    let count: u64 = available_locations.len() as u64;
    let index: u64 = (fc * fc + FRUIT_SEED) % count;
    available_locations[index as usize]
}

/// The free cells are grid cells that no segment occupies.
pub proof fn lemma_free_cells_valid(segs: Seq<Point>, n: nat)
    requires
        n <= CAPACITY,
    ensures
        forall|j: int| 0 <= j < free_cells_upto(segs, n).len() ==> in_grid(#[trigger] free_cells_upto(segs, n)[j])
            && !segs.contains(free_cells_upto(segs, n)[j]),
    decreases n,
{
    if n > 0 {
        lemma_free_cells_valid(segs, (n - 1) as nat);
        lemma_cell_in_grid(n - 1);
        let rest = free_cells_upto(segs, (n - 1) as nat);
        if !segs.contains(cell(n - 1)) {
            assert(free_cells_upto(segs, n) == rest.push(cell(n - 1)));
            assert forall|j: int| 0 <= j < free_cells_upto(segs, n).len() implies in_grid(
                #[trigger] free_cells_upto(segs, n)[j]) && !segs.contains(free_cells_upto(segs, n)[j]) by {
                if j < rest.len() {
                    assert(free_cells_upto(segs, n)[j] == rest[j]);
                }
            }
        }
    }
}

/// Every row-major index below `CAPACITY` names a grid cell.
pub proof fn lemma_cell_in_grid(k: int)
    requires
        0 <= k < CAPACITY,
    ensures
        in_grid(cell(k)),
{
    assert(SIDE == 20);
    assert(0 <= k % 20 < 20 && 0 <= k / 20 < 20);
}

/// A cell left free among the first `n` makes the free list non-empty.
pub proof fn lemma_free_cells_nonempty(segs: Seq<Point>, n: nat)
    requires
        exists|k: int| 0 <= k < n && !segs.contains(#[trigger] cell(k)),
    ensures
        free_cells_upto(segs, n).len() > 0,
    decreases n,
{
    let k = choose|k: int| 0 <= k < n && !segs.contains(#[trigger] cell(k));
    if k < n - 1 {
        lemma_free_cells_nonempty(segs, (n - 1) as nat);
    }
    lemma_free_cells_len_monotone(segs, n);
}

proof fn lemma_free_cells_len_monotone(segs: Seq<Point>, n: nat)
    requires
        n > 0,
    ensures
        free_cells_upto(segs, n).len() >= free_cells_upto(segs, (n - 1) as nat).len(),
{
}

/// Fewer segments than cells leave some cell free.
pub proof fn lemma_free_cell_exists(segs: Seq<Point>)
    requires
        segs.len() < CAPACITY,
    ensures
        exists|k: int| 0 <= k < CAPACITY && !segs.contains(#[trigger] cell(k)),
{
    broadcast use vstd::seq_lib::seq_to_set_is_finite;
    let all = Seq::new(CAPACITY as nat, |k: int| cell(k));
    assert forall|a: int, b: int| 0 <= a < all.len() && 0 <= b < all.len() && a != b implies all[a] != all[b] by {
        assert(0 <= a % 20 < 20 && 0 <= b % 20 < 20);
        assert(0 <= a / 20 < 20 && 0 <= b / 20 < 20);
    }
    assert(all.no_duplicates());
    all.unique_seq_to_set();
    segs.lemma_cardinality_of_set();
    if forall|k: int| 0 <= k < CAPACITY ==> segs.contains(#[trigger] cell(k)) {
        assert forall|p: Point| all.to_set().contains(p) implies segs.to_set().contains(p) by {
            let k = choose|k: int| 0 <= k < all.len() && all[k] == p;
            assert(segs.contains(cell(k)));
        }
        lemma_len_subset(all.to_set(), segs.to_set());
    }
}

/// A placed fruit is on the grid, or the sentinel when the board is full.
pub proof fn lemma_fruit_spot_valid(segs: Seq<Point>, frame_count: u32)
    ensures
        fruit_spot(segs, frame_count) == sentinel() || in_grid(fruit_spot(segs, frame_count)),
{
    lemma_free_cells_valid(segs, CAPACITY as nat);
    let free = free_cells(segs);
    if free.len() > 0 {
        let j = pick_index(frame_count, free.len());
        assert(in_grid(free[j]));
    }
}

} // verus!
