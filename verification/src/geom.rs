//! Axis-aligned rectangles in micro-pixels, and the strict overlap test the
//! collision and pickup rules are built on.

use vstd::prelude::*;

verus! {

/// Every coordinate the simulation stores stays within this bound, which
/// keeps all rectangle arithmetic far from `i64` overflow.
pub const COORD_BOUND: i64 = 100_000_000_000_000;

/// An axis-aligned rectangle: top-left corner, width and height, all in
/// micro-pixels.
#[derive(Clone, Copy, PartialEq, Eq, Structural, Debug)]
pub struct Rect {
    pub x: i64,
    pub y: i64,
    pub w: i64,
    pub h: i64,
}

/// A rectangle whose fields are bounded enough for overlap arithmetic.
pub open spec fn rect_bounded(r: Rect) -> bool {
    &&& -COORD_BOUND <= r.x <= COORD_BOUND
    &&& -COORD_BOUND <= r.y <= COORD_BOUND
    &&& 0 <= r.w <= COORD_BOUND
    &&& 0 <= r.h <= COORD_BOUND
}

/// Strict open-interval overlap on both axes: rectangles that merely touch
/// along an edge do not overlap.
pub open spec fn overlap(a: Rect, b: Rect) -> bool {
    &&& a.x < b.x + b.w
    &&& a.x + a.w > b.x
    &&& a.y < b.y + b.h
    &&& a.y + a.h > b.y
}

impl Rect {
    pub fn new(x: i64, y: i64, w: i64, h: i64) -> (r: Rect)
        ensures
            r == (Rect { x, y, w, h }),
    {
        Rect { x, y, w, h }
    }
}

/// Decides the strict overlap test on two bounded rectangles.
pub fn rects_overlap(a: Rect, b: Rect) -> (r: bool)
    requires
        rect_bounded(a),
        rect_bounded(b),
    ensures
        r == overlap(a, b),
{
    a.x < b.x + b.w && a.x + a.w > b.x && a.y < b.y + b.h && a.y + a.h > b.y
}

/// `i` is the index of the first rectangle in `rs` (in pool order) that
/// overlaps `target`.
pub open spec fn is_first_hit(rs: Seq<Rect>, target: Rect, i: int) -> bool {
    &&& 0 <= i < rs.len()
    &&& overlap(rs[i], target)
    &&& forall|j: int| 0 <= j < i ==> !overlap(#[trigger] rs[j], target)
}

/// Some rectangle in `rs` overlaps `target`.
pub open spec fn has_hit(rs: Seq<Rect>, target: Rect) -> bool {
    exists|i: int| is_first_hit(rs, target, i)
}

/// The index of the first rectangle in `rs` overlapping `target`, or `-1`
/// when none does.
pub open spec fn first_hit_idx(rs: Seq<Rect>, target: Rect) -> int {
    if has_hit(rs, target) {
        choose|i: int| is_first_hit(rs, target, i)
    } else {
        -1
    }
}

/// At most one index can be the first hit.
pub proof fn lemma_first_hit_unique(rs: Seq<Rect>, target: Rect, i: int, j: int)
    requires
        is_first_hit(rs, target, i),
        is_first_hit(rs, target, j),
    ensures
        i == j,
{
    if i < j {
        assert(!overlap(rs[i], target));
    } else if j < i {
        assert(!overlap(rs[j], target));
    }
}

/// A witness pins the first-hit index down.
pub proof fn lemma_first_hit_at(rs: Seq<Rect>, target: Rect, i: int)
    requires
        is_first_hit(rs, target, i),
    ensures
        first_hit_idx(rs, target) == i,
{
    assert(has_hit(rs, target));
    let k = choose|k: int| is_first_hit(rs, target, k);
    lemma_first_hit_unique(rs, target, i, k);
}

/// Any overlapping rectangle guarantees a first hit, at its index or before.
pub proof fn lemma_hit_exists(rs: Seq<Rect>, target: Rect, k: int)
    requires
        0 <= k < rs.len(),
        overlap(rs[k], target),
    ensures
        has_hit(rs, target),
        0 <= first_hit_idx(rs, target) <= k,
    decreases k,
{
    if forall|j: int| 0 <= j < k ==> !overlap(#[trigger] rs[j], target) {
        assert(is_first_hit(rs, target, k));
        lemma_first_hit_at(rs, target, k);
    } else {
        let j = choose|j: int| 0 <= j < k && overlap(#[trigger] rs[j], target);
        lemma_hit_exists(rs, target, j);
    }
}

/// When nothing overlaps, there is no first hit.
pub proof fn lemma_no_hit(rs: Seq<Rect>, target: Rect)
    requires
        forall|j: int| 0 <= j < rs.len() ==> !overlap(#[trigger] rs[j], target),
    ensures
        first_hit_idx(rs, target) == -1,
        !has_hit(rs, target),
{
    assert forall|i: int| !is_first_hit(rs, target, i) by {
        if 0 <= i < rs.len() {
            assert(!overlap(rs[i], target));
        }
    }
}

/// Clamps `v` into `[lo, hi]`.
pub open spec fn spec_clamp(v: int, lo: int, hi: int) -> int {
    if v < lo {
        lo
    } else if v > hi {
        hi
    } else {
        v
    }
}

/// Clamps a value into the closed interval `[lo, hi]`.
pub fn clamp_i64(v: i64, lo: i64, hi: i64) -> (r: i64)
    requires
        lo <= hi,
    ensures
        r == spec_clamp(v as int, lo as int, hi as int),
{
    if v < lo {
        lo
    } else if v > hi {
        hi
    } else {
        v
    }
}

} // verus!
