//! Axis-aligned bounding boxes over coordinate components held as bit
//! patterns of doubles, ordered by their `float_key`.
use vstd::prelude::*;

use crate::float_bits::{
    float_key, le_bits, max_bits, min_bits, spec_max_bits, spec_min_bits,
};

verus! {

/// The smallest axis-aligned rectangle containing a geometry: minimum and
/// maximum coordinate values on each axis, as bit patterns of doubles.
///
/// A box computed by this library satisfies `min <= max` on each axis in the
/// `float_key` order; a box supplied by a source record is carried as-is.
#[derive(Debug, Clone, Copy, PartialEq, Eq, Structural)]
pub struct Bbox {
    pub min_x: u64,
    pub min_y: u64,
    pub max_x: u64,
    pub max_y: u64,
}

/// The point `(x, y)` lies inside `b`, comparing coordinates by key.
pub open spec fn bbox_contains(b: Bbox, x: u64, y: u64) -> bool {
    &&& float_key(b.min_x) <= float_key(x) <= float_key(b.max_x)
    &&& float_key(b.min_y) <= float_key(y) <= float_key(b.max_y)
}

/// The smallest box containing both `a` and `b`.
pub open spec fn spec_bbox_union(a: Bbox, b: Bbox) -> Bbox {
    Bbox {
        min_x: spec_min_bits(a.min_x, b.min_x),
        min_y: spec_min_bits(a.min_y, b.min_y),
        max_x: spec_max_bits(a.max_x, b.max_x),
        max_y: spec_max_bits(a.max_y, b.max_y),
    }
}

/// The box of the single point `(x, y)`.
pub open spec fn spec_point_bbox(x: u64, y: u64) -> Bbox {
    Bbox { min_x: x, min_y: y, max_x: x, max_y: y }
}

/// Folds `spec_min_bits` over `s` from the left, starting at `acc`.
pub open spec fn fold_min(s: Seq<u64>, acc: u64) -> u64
    decreases s.len(),
{
    if s.len() == 0 {
        acc
    } else {
        fold_min(s.drop_first(), spec_min_bits(acc, s[0]))
    }
}

/// Folds `spec_max_bits` over `s` from the left, starting at `acc`.
pub open spec fn fold_max(s: Seq<u64>, acc: u64) -> u64
    decreases s.len(),
{
    if s.len() == 0 {
        acc
    } else {
        fold_max(s.drop_first(), spec_max_bits(acc, s[0]))
    }
}

/// The first components of a run of positions.
pub open spec fn xs_of(ps: Seq<Seq<u64>>) -> Seq<u64> {
    Seq::new(ps.len(), |i: int| ps[i][0])
}

/// The second components of a run of positions.
pub open spec fn ys_of(ps: Seq<Seq<u64>>) -> Seq<u64> {
    Seq::new(ps.len(), |i: int| ps[i][1])
}

/// The bounding box of a non-empty run of positions: the extremes of the
/// first two components over all of them.
pub open spec fn spec_positions_bbox(ps: Seq<Seq<u64>>) -> Bbox
    recommends
        ps.len() > 0,
{
    Bbox {
        min_x: fold_min(xs_of(ps), ps[0][0]),
        min_y: fold_min(ys_of(ps), ps[0][1]),
        max_x: fold_max(xs_of(ps), ps[0][0]),
        max_y: fold_max(ys_of(ps), ps[0][1]),
    }
}

/// Extending a left fold by one element takes the minimum with it.
pub proof fn lemma_fold_min_push(s: Seq<u64>, acc: u64, x: u64)
    ensures
        fold_min(s.push(x), acc) == spec_min_bits(fold_min(s, acc), x),
    decreases s.len(),
{
    if s.len() == 0 {
        assert(s.push(x)[0] == x);
        assert(s.push(x).drop_first() =~= Seq::<u64>::empty());
        assert(fold_min(s, acc) == acc);
        assert(fold_min(s.push(x).drop_first(), spec_min_bits(acc, x)) == spec_min_bits(acc, x));
        assert(fold_min(s.push(x), acc) == fold_min(s.push(x).drop_first(), spec_min_bits(acc, x)));
    } else {
        assert(s.push(x)[0] == s[0]);
        assert(s.push(x).drop_first() =~= s.drop_first().push(x));
        lemma_fold_min_push(s.drop_first(), spec_min_bits(acc, s[0]), x);
        assert(fold_min(s, acc) == fold_min(s.drop_first(), spec_min_bits(acc, s[0])));
        assert(fold_min(s.push(x), acc) == fold_min(
            s.drop_first().push(x),
            spec_min_bits(acc, s[0]),
        ));
    }
}

/// Extending a left fold by one element takes the maximum with it.
pub proof fn lemma_fold_max_push(s: Seq<u64>, acc: u64, x: u64)
    ensures
        fold_max(s.push(x), acc) == spec_max_bits(fold_max(s, acc), x),
    decreases s.len(),
{
    if s.len() == 0 {
        assert(s.push(x)[0] == x);
        assert(s.push(x).drop_first() =~= Seq::<u64>::empty());
        assert(fold_max(s, acc) == acc);
        assert(fold_max(s.push(x).drop_first(), spec_max_bits(acc, x)) == spec_max_bits(acc, x));
        assert(fold_max(s.push(x), acc) == fold_max(s.push(x).drop_first(), spec_max_bits(acc, x)));
    } else {
        assert(s.push(x)[0] == s[0]);
        assert(s.push(x).drop_first() =~= s.drop_first().push(x));
        lemma_fold_max_push(s.drop_first(), spec_max_bits(acc, s[0]), x);
        assert(fold_max(s, acc) == fold_max(s.drop_first(), spec_max_bits(acc, s[0])));
        assert(fold_max(s.push(x), acc) == fold_max(
            s.drop_first().push(x),
            spec_max_bits(acc, s[0]),
        ));
    }
}

/// A minimum fold lies at or below its start and every folded element.
pub proof fn lemma_fold_min_bounds(s: Seq<u64>, acc: u64)
    ensures
        float_key(fold_min(s, acc)) <= float_key(acc),
        forall|i: int| 0 <= i < s.len() ==> float_key(fold_min(s, acc)) <= float_key(#[trigger] s[i]),
    decreases s.len(),
{
    if s.len() > 0 {
        lemma_fold_min_bounds(s.drop_first(), spec_min_bits(acc, s[0]));
        assert forall|i: int| 0 <= i < s.len() implies float_key(fold_min(s, acc)) <= float_key(
            #[trigger] s[i],
        ) by {
            if i > 0 {
                assert(s.drop_first()[i - 1] == s[i]);
            }
        }
    }
}

/// A maximum fold lies at or above its start and every folded element.
pub proof fn lemma_fold_max_bounds(s: Seq<u64>, acc: u64)
    ensures
        float_key(fold_max(s, acc)) >= float_key(acc),
        forall|i: int| 0 <= i < s.len() ==> float_key(fold_max(s, acc)) >= float_key(#[trigger] s[i]),
    decreases s.len(),
{
    if s.len() > 0 {
        lemma_fold_max_bounds(s.drop_first(), spec_max_bits(acc, s[0]));
        assert forall|i: int| 0 <= i < s.len() implies float_key(fold_max(s, acc)) >= float_key(
            #[trigger] s[i],
        ) by {
            if i > 0 {
                assert(s.drop_first()[i - 1] == s[i]);
            }
        }
    }
}

/// Every position of a non-empty run lies inside the run's bounding box.
pub proof fn lemma_positions_bbox_contains(ps: Seq<Seq<u64>>)
    requires
        ps.len() > 0,
    ensures
        forall|i: int|
            0 <= i < ps.len() ==> bbox_contains(
                spec_positions_bbox(ps),
                #[trigger] ps[i][0],
                ps[i][1],
            ),
{
    lemma_fold_min_bounds(xs_of(ps), ps[0][0]);
    lemma_fold_max_bounds(xs_of(ps), ps[0][0]);
    lemma_fold_min_bounds(ys_of(ps), ps[0][1]);
    lemma_fold_max_bounds(ys_of(ps), ps[0][1]);
    assert forall|i: int| 0 <= i < ps.len() implies bbox_contains(
        spec_positions_bbox(ps),
        #[trigger] ps[i][0],
        ps[i][1],
    ) by {
        assert(xs_of(ps)[i] == ps[i][0]);
        assert(ys_of(ps)[i] == ps[i][1]);
    }
}

/// The box is well-formed: its minimum does not exceed its maximum on
/// either axis, comparing by key.
pub open spec fn bbox_ordered(b: Bbox) -> bool {
    float_key(b.min_x) <= float_key(b.max_x) && float_key(b.min_y) <= float_key(b.max_y)
}

/// The box of a non-empty run of positions is well-formed.
pub proof fn lemma_positions_bbox_ordered(ps: Seq<Seq<u64>>)
    requires
        ps.len() > 0,
    ensures
        bbox_ordered(spec_positions_bbox(ps)),
{
    lemma_fold_min_bounds(xs_of(ps), ps[0][0]);
    lemma_fold_max_bounds(xs_of(ps), ps[0][0]);
    lemma_fold_min_bounds(ys_of(ps), ps[0][1]);
    lemma_fold_max_bounds(ys_of(ps), ps[0][1]);
}

/// The union of boxes is associative.
pub proof fn lemma_bbox_union_assoc(a: Bbox, b: Bbox, c: Bbox)
    ensures
        spec_bbox_union(spec_bbox_union(a, b), c) == spec_bbox_union(a, spec_bbox_union(b, c)),
{
}

impl Bbox {
    /// The smallest box containing both `self` and `other`.
    pub fn union(self, other: Bbox) -> (r: Bbox)
        ensures
            r == spec_bbox_union(self, other),
    {
        Bbox {
            min_x: min_bits(self.min_x, other.min_x),
            min_y: min_bits(self.min_y, other.min_y),
            max_x: max_bits(self.max_x, other.max_x),
            max_y: max_bits(self.max_y, other.max_y),
        }
    }

    /// The point `(x, y)` lies inside `self`, comparing coordinates by key.
    pub fn contains(self, x: u64, y: u64) -> (r: bool)
        ensures
            r == bbox_contains(self, x, y),
    {
        le_bits(self.min_x, x) && le_bits(x, self.max_x) && le_bits(self.min_y, y) && le_bits(
            y,
            self.max_y,
        )
    }
}

/// Computes the bounding box of a non-empty run of positions.
pub fn compute_positions_bbox(ps: &Vec<Vec<u64>>) -> (r: Bbox)
    requires
        ps@.len() > 0,
        forall|i: int| 0 <= i < ps@.len() ==> #[trigger] ps@[i]@.len() >= 2,
    ensures
        r == spec_positions_bbox(crate::raw::line_view(*ps)),
{
    let ghost vw = crate::raw::line_view(*ps);
    let first = &ps[0];
    let mut min_x = first[0];
    let mut min_y = first[1];
    let mut max_x = first[0];
    let mut max_y = first[1];
    assert(xs_of(vw).take(0) =~= Seq::<u64>::empty());
    assert(ys_of(vw).take(0) =~= Seq::<u64>::empty());
    let mut i: usize = 0;
    while i < ps.len()
        invariant
            0 <= i <= ps@.len(),
            ps@.len() > 0,
            forall|k: int| 0 <= k < ps@.len() ==> #[trigger] ps@[k]@.len() >= 2,
            vw == crate::raw::line_view(*ps),
            min_x == fold_min(xs_of(vw).take(i as int), vw[0][0]),
            min_y == fold_min(ys_of(vw).take(i as int), vw[0][1]),
            max_x == fold_max(xs_of(vw).take(i as int), vw[0][0]),
            max_y == fold_max(ys_of(vw).take(i as int), vw[0][1]),
        decreases ps@.len() - i,
    {
        let p = &ps[i];
        proof {
            assert(xs_of(vw).take(i + 1) =~= xs_of(vw).take(i as int).push(p@[0]));
            assert(ys_of(vw).take(i + 1) =~= ys_of(vw).take(i as int).push(p@[1]));
            lemma_fold_min_push(xs_of(vw).take(i as int), vw[0][0], p@[0]);
            lemma_fold_max_push(xs_of(vw).take(i as int), vw[0][0], p@[0]);
            lemma_fold_min_push(ys_of(vw).take(i as int), vw[0][1], p@[1]);
            lemma_fold_max_push(ys_of(vw).take(i as int), vw[0][1], p@[1]);
        }
        min_x = min_bits(min_x, p[0]);
        min_y = min_bits(min_y, p[1]);
        max_x = max_bits(max_x, p[0]);
        max_y = max_bits(max_y, p[1]);
        i = i + 1;
    }
    proof {
        assert(xs_of(vw).take(ps@.len() as int) =~= xs_of(vw));
        assert(ys_of(vw).take(ps@.len() as int) =~= ys_of(vw));
    }
    Bbox { min_x, min_y, max_x, max_y }
}

} // verus!
