//! The raw geometry payload: nested arrays of coordinate components, with
//! every component held as the bit pattern of a double-precision number.
//!
//! This module also defines, per geometry kind, the structural rules a
//! payload must meet before a feature is built from it, and the bounding box
//! computed for a payload when the source record supplies none.
use vstd::prelude::*;

use crate::bbox::{
    bbox_contains, lemma_positions_bbox_contains, spec_bbox_union, spec_point_bbox,
    spec_positions_bbox, Bbox,
};
use crate::float_bits::{float_eq_bits, float_key};

verus! {

/// A raw geometry payload, one variant per geometry kind. A position is a
/// vector of coordinate components (normally exactly two), each component the
/// bit pattern of a double-precision number.
#[derive(Debug, PartialEq)]
pub enum RawValue {
    /// A single position.
    Point(Vec<u64>),
    /// A list of positions.
    MultiPoint(Vec<Vec<u64>>),
    /// An ordered run of positions.
    LineString(Vec<Vec<u64>>),
    /// A list of line strings.
    MultiLineString(Vec<Vec<Vec<u64>>>),
    /// A list of rings; the first ring is the exterior.
    Polygon(Vec<Vec<Vec<u64>>>),
    /// A list of polygons.
    MultiPolygon(Vec<Vec<Vec<Vec<u64>>>>),
    /// A list of nested geometries, recursively.
    GeometryCollection(Vec<RawValue>),
}

/// The positions of one run (a line string, a ring, or a point list), as a
/// sequence of component sequences.
pub open spec fn line_view(l: Vec<Vec<u64>>) -> Seq<Seq<u64>> {
    Seq::new(l@.len(), |i: int| l@[i]@)
}

/// The rings of a polygon, or the lines of a multi-line-string, as nested
/// sequences.
pub open spec fn rings_view(r: Vec<Vec<Vec<u64>>>) -> Seq<Seq<Seq<u64>>> {
    Seq::new(r@.len(), |i: int| line_view(r@[i]))
}

/// The polygons of a multi-polygon, as nested sequences.
pub open spec fn polygons_view(m: Vec<Vec<Vec<Vec<u64>>>>) -> Seq<Seq<Seq<Seq<u64>>>> {
    Seq::new(m@.len(), |i: int| rings_view(m@[i]))
}

/// Every position reachable from the payload has at least two components,
/// so that decoding the payload into typed coordinates is possible.
pub open spec fn positions_ok(g: RawValue) -> bool
    decreases g, 0int, 0int,
{
    match g {
        RawValue::Point(p) => p@.len() >= 2,
        RawValue::MultiPoint(ps) => forall|i: int|
            0 <= i < ps@.len() ==> #[trigger] ps@[i]@.len() >= 2,
        RawValue::LineString(l) => forall|i: int|
            0 <= i < l@.len() ==> #[trigger] l@[i]@.len() >= 2,
        RawValue::MultiLineString(ls) => forall|i: int, j: int|
            0 <= i < ls@.len() && 0 <= j < ls@[i]@.len() ==> #[trigger] ls@[i]@[j]@.len() >= 2,
        RawValue::Polygon(rs) => forall|i: int, j: int|
            0 <= i < rs@.len() && 0 <= j < rs@[i]@.len() ==> #[trigger] rs@[i]@[j]@.len() >= 2,
        RawValue::MultiPolygon(ms) => forall|i: int, j: int, k: int|
            0 <= i < ms@.len() && 0 <= j < ms@[i]@.len() && 0 <= k < ms@[i]@[j]@.len()
                ==> #[trigger] ms@[i]@[j]@[k]@.len() >= 2,
        RawValue::GeometryCollection(gs) => positions_ok_from(gs@, 0),
    }
}

/// `positions_ok` for every member of `s` from index `i` on.
pub open spec fn positions_ok_from(s: Seq<RawValue>, i: int) -> bool
    decreases s, s.len() - i, 0int
        when 0 <= i <= s.len()
{
    if i == s.len() {
        true
    } else {
        positions_ok(s[i]) && positions_ok_from(s, i + 1)
    }
}

/// A point payload is valid when it has exactly two components.
pub open spec fn valid_point(p: Seq<u64>) -> bool {
    p.len() == 2
}

/// Two positions coincide when their first two components are equal numbers.
pub open spec fn pos_coincident(a: Seq<u64>, b: Seq<u64>) -> bool {
    float_eq_bits(a[0], b[0]) && float_eq_bits(a[1], b[1])
}

/// A line's total length is zero: every position coincides with the next.
/// An empty or single-position line counts as degenerate.
pub open spec fn degenerate_line(l: Seq<Seq<u64>>) -> bool {
    forall|i: int| 0 <= i < l.len() - 1 ==> #[trigger] pos_coincident(l[i], l[i + 1])
}

/// Every position of the run has exactly two components.
pub open spec fn line_arity_ok(l: Seq<Seq<u64>>) -> bool {
    forall|i: int| 0 <= i < l.len() ==> (#[trigger] l[i]).len() == 2
}

/// A line-string payload is valid when every position has exactly two
/// components and the line's total length is not zero.
pub open spec fn valid_line_string(l: Seq<Seq<u64>>) -> bool {
    line_arity_ok(l) && !degenerate_line(l)
}

/// A polygon payload is valid when its ring list is non-empty, every ring is
/// non-empty, and every position has exactly two components.
pub open spec fn valid_polygon(rs: Seq<Seq<Seq<u64>>>) -> bool {
    &&& rs.len() > 0
    &&& forall|i: int| 0 <= i < rs.len() ==> (#[trigger] rs[i]).len() > 0
    &&& forall|i: int, j: int|
        0 <= i < rs.len() && 0 <= j < rs[i].len() ==> (#[trigger] rs[i][j]).len() == 2
}

/// A multi-point payload is valid when its point list is non-empty and every
/// position has exactly two components.
pub open spec fn valid_multi_point(ps: Seq<Seq<u64>>) -> bool {
    ps.len() > 0 && line_arity_ok(ps)
}

/// A multi-line-string payload is valid when its line list is non-empty and
/// every line is non-empty.
pub open spec fn valid_multi_line_string(ls: Seq<Seq<Seq<u64>>>) -> bool {
    ls.len() > 0 && forall|i: int| 0 <= i < ls.len() ==> (#[trigger] ls[i]).len() > 0
}

/// A multi-polygon payload is valid when its polygon list is non-empty,
/// every polygon is non-empty, and every ring is non-empty.
pub open spec fn valid_multi_polygon(ms: Seq<Seq<Seq<Seq<u64>>>>) -> bool {
    &&& ms.len() > 0
    &&& forall|i: int| 0 <= i < ms.len() ==> (#[trigger] ms[i]).len() > 0
    &&& forall|i: int, j: int|
        0 <= i < ms.len() && 0 <= j < ms[i].len() ==> (#[trigger] ms[i][j]).len() > 0
}

/// The payload meets its kind's structural rules: the per-kind validity
/// predicate above, with a collection valid when it is non-empty and every
/// member is valid against its own kind's rule, recursively.
pub open spec fn valid_value(g: RawValue) -> bool
    decreases g,
{
    match g {
        RawValue::Point(p) => valid_point(p@),
        RawValue::LineString(l) => valid_line_string(line_view(l)),
        RawValue::Polygon(rs) => valid_polygon(rings_view(rs)),
        RawValue::MultiPoint(ps) => valid_multi_point(line_view(ps)),
        RawValue::MultiLineString(ls) => valid_multi_line_string(rings_view(ls)),
        RawValue::MultiPolygon(ms) => valid_multi_polygon(polygons_view(ms)),
        RawValue::GeometryCollection(gs) => gs@.len() > 0 && forall|i: int|
            0 <= i < gs@.len() ==> valid_value(#[trigger] gs@[i]),
    }
}

/// Folds the union of a run of boxes from the left, starting at `acc`.
pub open spec fn fold_union(bs: Seq<Bbox>, acc: Bbox) -> Bbox
    decreases bs.len(),
{
    if bs.len() == 0 {
        acc
    } else {
        fold_union(bs.drop_first(), spec_bbox_union(acc, bs[0]))
    }
}

/// The union of a non-empty run of boxes.
pub open spec fn union_all(bs: Seq<Bbox>) -> Bbox
    recommends
        bs.len() > 0,
{
    fold_union(bs.drop_first(), bs[0])
}

/// The boxes of a run of rings, each ring's box the extremes of its
/// positions.
pub open spec fn ring_bboxes(rs: Seq<Seq<Seq<u64>>>) -> Seq<Bbox> {
    Seq::new(rs.len(), |i: int| spec_positions_bbox(rs[i]))
}

/// The box of a non-empty run of rings: the union of the rings' boxes.
pub open spec fn spec_rings_bbox(rs: Seq<Seq<Seq<u64>>>) -> Bbox
    recommends
        rs.len() > 0,
{
    union_all(ring_bboxes(rs))
}

/// The boxes of a run of polygons.
pub open spec fn polygon_bboxes(ms: Seq<Seq<Seq<Seq<u64>>>>) -> Seq<Bbox> {
    Seq::new(ms.len(), |i: int| spec_rings_bbox(ms[i]))
}

/// The bounding box computed for a payload: the extremes of its coordinates,
/// with a collection's box the union of its members' boxes in order.
pub open spec fn bbox_value(g: RawValue) -> Bbox
    decreases g, 0int, 0int,
{
    match g {
        RawValue::Point(p) => spec_point_bbox(p@[0], p@[1]),
        RawValue::LineString(l) => spec_positions_bbox(line_view(l)),
        RawValue::MultiPoint(ps) => spec_positions_bbox(line_view(ps)),
        RawValue::Polygon(rs) => spec_rings_bbox(rings_view(rs)),
        RawValue::MultiLineString(ls) => spec_rings_bbox(rings_view(ls)),
        RawValue::MultiPolygon(ms) => union_all(polygon_bboxes(polygons_view(ms))),
        RawValue::GeometryCollection(gs) => bbox_members(gs@, 1, bbox_value_first(gs@)),
    }
}

/// The box of a collection's first member; arbitrary for an empty collection.
pub open spec fn bbox_value_first(s: Seq<RawValue>) -> Bbox
    decreases s, 0int, 1int,
{
    if s.len() > 0 {
        bbox_value(s[0])
    } else {
        spec_point_bbox(0, 0)
    }
}

/// Unions the boxes of a collection's members from index `i` on into `acc`.
pub open spec fn bbox_members(s: Seq<RawValue>, i: int, acc: Bbox) -> Bbox
    decreases s, s.len() - i, 1int
        when 0 <= i <= s.len()
{
    if i == s.len() {
        acc
    } else {
        bbox_members(s, i + 1, spec_bbox_union(acc, bbox_value(s[i])))
    }
}

/// When every position from member `i` on is long enough, that holds of
/// each member alone.
pub proof fn lemma_positions_ok_from(s: Seq<RawValue>, i: int)
    requires
        0 <= i <= s.len(),
        positions_ok_from(s, i),
    ensures
        forall|k: int| i <= k < s.len() ==> #[trigger] positions_ok(s[k]),
    decreases s.len() - i,
{
    if i < s.len() {
        lemma_positions_ok_from(s, i + 1);
    }
}


/// A union fold of well-formed boxes is well-formed.
pub proof fn lemma_fold_union_ordered(bs: Seq<Bbox>, acc: Bbox)
    requires
        crate::bbox::bbox_ordered(acc),
        forall|i: int| 0 <= i < bs.len() ==> crate::bbox::bbox_ordered(#[trigger] bs[i]),
    ensures
        crate::bbox::bbox_ordered(fold_union(bs, acc)),
    decreases bs.len(),
{
    if bs.len() > 0 {
        assert forall|i: int| 0 <= i < bs.drop_first().len() implies crate::bbox::bbox_ordered(
            #[trigger] bs.drop_first()[i],
        ) by {
            assert(bs.drop_first()[i] == bs[i + 1]);
        }
        lemma_fold_union_ordered(bs.drop_first(), spec_bbox_union(acc, bs[0]));
    }
}

/// The bounding box computed for a payload that passed its kind's checks is
/// well-formed: its minimum does not exceed its maximum on either axis.
pub proof fn lemma_bbox_value_ordered(g: RawValue)
    requires
        valid_value(g),
    ensures
        crate::bbox::bbox_ordered(bbox_value(g)),
    decreases g, 0int, 0int,
{
    match g {
        RawValue::Point(p) => {},
        RawValue::LineString(l) => {
            if line_view(l).len() == 0 {
                assert(degenerate_line(line_view(l)));
            }
            crate::bbox::lemma_positions_bbox_ordered(line_view(l));
        },
        RawValue::MultiPoint(ps) => {
            crate::bbox::lemma_positions_bbox_ordered(line_view(ps));
        },
        RawValue::Polygon(rs) => {
            lemma_rings_bbox_ordered(rings_view(rs));
        },
        RawValue::MultiLineString(ls) => {
            lemma_rings_bbox_ordered(rings_view(ls));
        },
        RawValue::MultiPolygon(ms) => {
            let pv = polygons_view(ms);
            let pb = polygon_bboxes(pv);
            assert forall|i: int| 0 <= i < pb.drop_first().len() implies crate::bbox::bbox_ordered(
                #[trigger] pb.drop_first()[i],
            ) by {
                assert(pb.drop_first()[i] == pb[i + 1]);
                assert(pv[i + 1] == rings_view(ms@[i + 1]));
                lemma_rings_bbox_ordered(pv[i + 1]);
            }
            assert(pv[0] == rings_view(ms@[0]));
            lemma_rings_bbox_ordered(pv[0]);
            lemma_fold_union_ordered(pb.drop_first(), pb[0]);
        },
        RawValue::GeometryCollection(gs) => {
            lemma_bbox_value_ordered(gs@[0]);
            lemma_bbox_members_ordered(gs@, 1, bbox_value(gs@[0]));
        },
    }
}

/// The union of a collection's member boxes is well-formed when its start
/// and every member's box are.
pub proof fn lemma_bbox_members_ordered(s: Seq<RawValue>, i: int, acc: Bbox)
    requires
        0 <= i <= s.len(),
        crate::bbox::bbox_ordered(acc),
        forall|k: int| 0 <= k < s.len() ==> #[trigger] valid_value(s[k]),
    ensures
        crate::bbox::bbox_ordered(bbox_members(s, i, acc)),
    decreases s, s.len() - i, 2int,
{
    if i < s.len() {
        lemma_bbox_value_ordered(s[i]);
        lemma_bbox_members_ordered(s, i + 1, spec_bbox_union(acc, bbox_value(s[i])));
    }
}

/// The box of a non-empty run of non-empty rings is well-formed.
pub proof fn lemma_rings_bbox_ordered(rs: Seq<Seq<Seq<u64>>>)
    requires
        rs.len() > 0,
        forall|i: int| 0 <= i < rs.len() ==> (#[trigger] rs[i]).len() > 0,
    ensures
        crate::bbox::bbox_ordered(spec_rings_bbox(rs)),
{
    let rb = ring_bboxes(rs);
    assert forall|i: int| 0 <= i < rb.drop_first().len() implies crate::bbox::bbox_ordered(
        #[trigger] rb.drop_first()[i],
    ) by {
        assert(rb.drop_first()[i] == rb[i + 1]);
        crate::bbox::lemma_positions_bbox_ordered(rs[i + 1]);
    }
    crate::bbox::lemma_positions_bbox_ordered(rs[0]);
    lemma_fold_union_ordered(rb.drop_first(), rb[0]);
}

/// The boxes of the payload's leaf geometries, in order, a collection
/// flattened recursively into its members' leaves.
pub open spec fn leaf_bboxes(g: RawValue) -> Seq<Bbox>
    decreases g, 0int, 0int,
{
    match g {
        RawValue::GeometryCollection(gs) => leaf_bboxes_from(gs@, 0),
        _ => seq![bbox_value(g)],
    }
}

/// The leaf boxes of a collection's members from index `i` on, concatenated
/// in order.
pub open spec fn leaf_bboxes_from(s: Seq<RawValue>, i: int) -> Seq<Bbox>
    decreases s, s.len() - i, 1int
        when 0 <= i <= s.len()
{
    if i == s.len() {
        Seq::empty()
    } else {
        leaf_bboxes(s[i]) + leaf_bboxes_from(s, i + 1)
    }
}

/// A union fold over a concatenation folds the two parts in turn.
pub proof fn lemma_fold_union_append(a: Seq<Bbox>, b: Seq<Bbox>, acc: Bbox)
    ensures
        fold_union(a + b, acc) == fold_union(b, fold_union(a, acc)),
    decreases a.len(),
{
    if a.len() == 0 {
        assert(a + b =~= b);
    } else {
        assert((a + b).drop_first() =~= a.drop_first() + b);
        assert((a + b)[0] == a[0]);
        lemma_fold_union_append(a.drop_first(), b, spec_bbox_union(acc, a[0]));
    }
}

/// A box unioned into the start of a member fold can be pulled out front.
pub proof fn lemma_bbox_members_hoist(s: Seq<RawValue>, i: int, a: Bbox, b: Bbox)
    requires
        0 <= i <= s.len(),
    ensures
        bbox_members(s, i, spec_bbox_union(a, b)) == spec_bbox_union(a, bbox_members(s, i, b)),
    decreases s.len() - i,
{
    if i < s.len() {
        crate::bbox::lemma_bbox_union_assoc(a, b, bbox_value(s[i]));
        lemma_bbox_members_hoist(s, i + 1, a, spec_bbox_union(b, bbox_value(s[i])));
    }
}

/// Folding the union of a payload's leaf boxes into `acc` unions the
/// payload's own box into `acc`.
pub proof fn lemma_leaf_fold(g: RawValue, acc: Bbox)
    requires
        valid_value(g),
    ensures
        fold_union(leaf_bboxes(g), acc) == spec_bbox_union(acc, bbox_value(g)),
        leaf_bboxes(g).len() > 0,
    decreases g, 0int, 0int,
{
    match g {
        RawValue::GeometryCollection(gs) => {
            let b0 = bbox_value(gs@[0]);
            lemma_leaf_fold_members(gs@, 0, acc);
            assert(bbox_members(gs@, 0, acc) == bbox_members(
                gs@,
                1,
                spec_bbox_union(acc, b0),
            ));
            lemma_bbox_members_hoist(gs@, 1, acc, b0);
            lemma_leaf_fold(gs@[0], acc);
            assert(leaf_bboxes_from(gs@, 0).len() >= leaf_bboxes(gs@[0]).len());
        },
        _ => {
            let bs = leaf_bboxes(g);
            assert(bs == seq![bbox_value(g)]);
            assert(bs.drop_first() =~= Seq::<Bbox>::empty());
            assert(bs[0] == bbox_value(g));
            assert(fold_union(bs.drop_first(), spec_bbox_union(acc, bs[0])) == spec_bbox_union(
                acc,
                bbox_value(g),
            ));
        },
    }
}

/// Folding the union of a run of members' leaf boxes into `acc` unions the
/// members' own boxes into `acc`, in order.
pub proof fn lemma_leaf_fold_members(s: Seq<RawValue>, i: int, acc: Bbox)
    requires
        0 <= i <= s.len(),
        forall|k: int| 0 <= k < s.len() ==> #[trigger] valid_value(s[k]),
    ensures
        fold_union(leaf_bboxes_from(s, i), acc) == bbox_members(s, i, acc),
    decreases s, s.len() - i, 1int,
{
    if i < s.len() {
        lemma_fold_union_append(leaf_bboxes(s[i]), leaf_bboxes_from(s, i + 1), acc);
        lemma_leaf_fold(s[i], acc);
        lemma_leaf_fold_members(s, i + 1, spec_bbox_union(acc, bbox_value(s[i])));
    }
}

/// Collection aggregation: the bounding box computed for a payload that
/// passed its kind's checks equals the union of the boxes of all of its
/// recursively flattened leaf geometries, a collection's members unioned in
/// order.
pub proof fn lemma_bbox_is_union_of_leaf_bboxes(g: RawValue)
    requires
        valid_value(g),
    ensures
        leaf_bboxes(g).len() > 0,
        bbox_value(g) == union_all(leaf_bboxes(g)),
    decreases g, 0int, 1int,
{
    match g {
        RawValue::GeometryCollection(gs) => {
            let a = leaf_bboxes(gs@[0]);
            let b = leaf_bboxes_from(gs@, 1);
            let leafs = leaf_bboxes(g);
            lemma_bbox_is_union_of_leaf_bboxes(gs@[0]);
            assert(leafs == a + b);
            assert((a + b).drop_first() =~= a.drop_first() + b);
            assert((a + b)[0] == a[0]);
            lemma_fold_union_append(a.drop_first(), b, a[0]);
            lemma_leaf_fold_members(gs@, 1, bbox_value(gs@[0]));
        },
        _ => {
            let bs = leaf_bboxes(g);
            assert(bs == seq![bbox_value(g)]);
            assert(bs.drop_first() =~= Seq::<Bbox>::empty());
            assert(bs[0] == bbox_value(g));
        },
    }
}

/// Lengths seen through `rings_view` are the lengths of the vectors below.
pub proof fn lemma_nested_view_bounds(rs: Vec<Vec<Vec<u64>>>)
    ensures
        forall|i: int|
            0 <= i < rs@.len() ==> (#[trigger] rs@[i]@).len() == rings_view(rs)[i].len(),
        forall|i: int, j: int|
            0 <= i < rs@.len() && 0 <= j < rs@[i]@.len() ==> (#[trigger] rs@[i]@[j]@).len()
                == rings_view(rs)[i][j].len(),
{
    assert forall|i: int| 0 <= i < rs@.len() implies (#[trigger] rs@[i]@).len() == rings_view(
        rs,
    )[i].len() by {
        assert(rings_view(rs)[i] == line_view(rs@[i]));
    }
    assert forall|i: int, j: int|
        0 <= i < rs@.len() && 0 <= j < rs@[i]@.len() implies (#[trigger] rs@[i]@[j]@).len()
        == rings_view(rs)[i][j].len() by {
        assert(rings_view(rs)[i] == line_view(rs@[i]));
        assert(rings_view(rs)[i][j] == rs@[i]@[j]@);
    }
}

/// Lengths seen through `polygons_view` are the lengths of the vectors below.
pub proof fn lemma_polygons_view_bounds(ms: Vec<Vec<Vec<Vec<u64>>>>)
    ensures
        forall|i: int|
            0 <= i < ms@.len() ==> (#[trigger] ms@[i]@).len() == polygons_view(ms)[i].len(),
        forall|i: int, j: int|
            0 <= i < ms@.len() && 0 <= j < ms@[i]@.len() ==> (#[trigger] ms@[i]@[j]@).len()
                == polygons_view(ms)[i][j].len(),
        forall|i: int, j: int, k: int|
            0 <= i < ms@.len() && 0 <= j < ms@[i]@.len() && 0 <= k < ms@[i]@[j]@.len() ==> (
            #[trigger] ms@[i]@[j]@[k]@).len() == polygons_view(ms)[i][j][k].len(),
{
    assert forall|i: int| 0 <= i < ms@.len() implies (#[trigger] ms@[i]@).len() == polygons_view(
        ms,
    )[i].len() by {
        assert(polygons_view(ms)[i] == rings_view(ms@[i]));
    }
    assert forall|i: int, j: int|
        0 <= i < ms@.len() && 0 <= j < ms@[i]@.len() implies (#[trigger] ms@[i]@[j]@).len()
        == polygons_view(ms)[i][j].len() by {
        assert(polygons_view(ms)[i] == rings_view(ms@[i]));
        assert(polygons_view(ms)[i][j] == line_view(ms@[i]@[j]));
    }
    assert forall|i: int, j: int, k: int|
        0 <= i < ms@.len() && 0 <= j < ms@[i]@.len() && 0 <= k < ms@[i]@[j]@.len() implies (
    #[trigger] ms@[i]@[j]@[k]@).len() == polygons_view(ms)[i][j][k].len() by {
        assert(polygons_view(ms)[i] == rings_view(ms@[i]));
        assert(polygons_view(ms)[i][j] == line_view(ms@[i]@[j]));
        assert(polygons_view(ms)[i][j][k] == ms@[i]@[j]@[k]@);
    }
}

/// Computes the box of a non-empty run of non-empty rings: the union of the
/// rings' boxes.
pub fn compute_rings_bbox(rs: &Vec<Vec<Vec<u64>>>) -> (r: Bbox)
    requires
        rs@.len() > 0,
        forall|i: int| 0 <= i < rs@.len() ==> (#[trigger] rs@[i]@).len() > 0,
        forall|i: int, j: int|
            0 <= i < rs@.len() && 0 <= j < rs@[i]@.len() ==> (#[trigger] rs@[i]@[j]@).len() >= 2,
    ensures
        r == spec_rings_bbox(rings_view(*rs)),
{
    let ghost rb = ring_bboxes(rings_view(*rs));
    let mut acc = crate::bbox::compute_positions_bbox(&rs[0]);
    proof {
        assert(rb.skip(1) =~= rb.drop_first());
    }
    let mut i: usize = 1;
    while i < rs.len()
        invariant
            1 <= i <= rs@.len(),
            forall|k: int| 0 <= k < rs@.len() ==> (#[trigger] rs@[k]@).len() > 0,
            forall|k: int, j: int|
                0 <= k < rs@.len() && 0 <= j < rs@[k]@.len() ==> (#[trigger] rs@[k]@[j]@).len()
                    >= 2,
            rb == ring_bboxes(rings_view(*rs)),
            fold_union(rb.skip(i as int), acc) == spec_rings_bbox(rings_view(*rs)),
        decreases rs@.len() - i,
    {
        proof {
            assert(rb.skip(i as int).drop_first() =~= rb.skip(i as int + 1));
            assert(rb.skip(i as int)[0] == rb[i as int]);
        }
        let b = crate::bbox::compute_positions_bbox(&rs[i]);
        acc = acc.union(b);
        i = i + 1;
    }
    proof {
        assert(rb.skip(rs@.len() as int) =~= Seq::<Bbox>::empty());
    }
    acc
}

/// Computes the box of a non-empty run of polygons: the union of the
/// polygons' boxes.
pub fn compute_polygons_bbox(ms: &Vec<Vec<Vec<Vec<u64>>>>) -> (r: Bbox)
    requires
        ms@.len() > 0,
        forall|i: int| 0 <= i < ms@.len() ==> (#[trigger] ms@[i]@).len() > 0,
        forall|i: int, j: int|
            0 <= i < ms@.len() && 0 <= j < ms@[i]@.len() ==> (#[trigger] ms@[i]@[j]@).len() > 0,
        forall|i: int, j: int, k: int|
            0 <= i < ms@.len() && 0 <= j < ms@[i]@.len() && 0 <= k < ms@[i]@[j]@.len() ==> (
            #[trigger] ms@[i]@[j]@[k]@).len() >= 2,
    ensures
        r == union_all(polygon_bboxes(polygons_view(*ms))),
{
    let ghost pb = polygon_bboxes(polygons_view(*ms));
    let mut acc = compute_rings_bbox(&ms[0]);
    proof {
        assert(pb.skip(1) =~= pb.drop_first());
    }
    let mut i: usize = 1;
    while i < ms.len()
        invariant
            1 <= i <= ms@.len(),
            forall|k: int| 0 <= k < ms@.len() ==> (#[trigger] ms@[k]@).len() > 0,
            forall|k: int, j: int|
                0 <= k < ms@.len() && 0 <= j < ms@[k]@.len() ==> (#[trigger] ms@[k]@[j]@).len()
                    > 0,
            forall|q: int, j: int, k: int|
                0 <= q < ms@.len() && 0 <= j < ms@[q]@.len() && 0 <= k < ms@[q]@[j]@.len() ==> (
                #[trigger] ms@[q]@[j]@[k]@).len() >= 2,
            pb == polygon_bboxes(polygons_view(*ms)),
            fold_union(pb.skip(i as int), acc) == union_all(polygon_bboxes(polygons_view(*ms))),
        decreases ms@.len() - i,
    {
        proof {
            assert(pb.skip(i as int).drop_first() =~= pb.skip(i as int + 1));
            assert(pb.skip(i as int)[0] == pb[i as int]);
        }
        let b = compute_rings_bbox(&ms[i]);
        acc = acc.union(b);
        i = i + 1;
    }
    proof {
        assert(pb.skip(ms@.len() as int) =~= Seq::<Bbox>::empty());
    }
    acc
}

/// Box `a` lies inside box `b` on both axes.
pub open spec fn bbox_le(a: Bbox, b: Bbox) -> bool {
    &&& float_key(b.min_x) <= float_key(a.min_x)
    &&& float_key(a.max_x) <= float_key(b.max_x)
    &&& float_key(b.min_y) <= float_key(a.min_y)
    &&& float_key(a.max_y) <= float_key(b.max_y)
}

/// Every coordinate of the payload lies inside box `b`, comparing by key.
pub open spec fn positions_within(g: RawValue, b: Bbox) -> bool
    decreases g,
{
    match g {
        RawValue::Point(p) => bbox_contains(b, p@[0], p@[1]),
        RawValue::LineString(l) => forall|i: int|
            0 <= i < l@.len() ==> bbox_contains(b, (#[trigger] l@[i]@)[0], l@[i]@[1]),
        RawValue::MultiPoint(ps) => forall|i: int|
            0 <= i < ps@.len() ==> bbox_contains(b, (#[trigger] ps@[i]@)[0], ps@[i]@[1]),
        RawValue::Polygon(rs) => forall|i: int, j: int|
            0 <= i < rs@.len() && 0 <= j < rs@[i]@.len() ==> bbox_contains(
                b,
                (#[trigger] rs@[i]@[j]@)[0],
                rs@[i]@[j]@[1],
            ),
        RawValue::MultiLineString(ls) => forall|i: int, j: int|
            0 <= i < ls@.len() && 0 <= j < ls@[i]@.len() ==> bbox_contains(
                b,
                (#[trigger] ls@[i]@[j]@)[0],
                ls@[i]@[j]@[1],
            ),
        RawValue::MultiPolygon(ms) => forall|i: int, j: int, k: int|
            0 <= i < ms@.len() && 0 <= j < ms@[i]@.len() && 0 <= k < ms@[i]@[j]@.len()
                ==> bbox_contains(b, (#[trigger] ms@[i]@[j]@[k]@)[0], ms@[i]@[j]@[k]@[1]),
        RawValue::GeometryCollection(gs) => forall|i: int|
            0 <= i < gs@.len() ==> positions_within(#[trigger] gs@[i], b),
    }
}

/// Containment survives widening the box.
pub proof fn lemma_positions_within_le(g: RawValue, a: Bbox, b: Bbox)
    requires
        positions_within(g, a),
        bbox_le(a, b),
    ensures
        positions_within(g, b),
    decreases g,
{
    match g {
        RawValue::GeometryCollection(gs) => {
            assert forall|i: int| 0 <= i < gs@.len() implies positions_within(
                #[trigger] gs@[i],
                b,
            ) by {
                lemma_positions_within_le(gs@[i], a, b);
            }
        },
        _ => {},
    }
}

/// A union fold covers its start and every folded box.
pub proof fn lemma_fold_union_le(bs: Seq<Bbox>, acc: Bbox)
    ensures
        bbox_le(acc, fold_union(bs, acc)),
        forall|i: int| 0 <= i < bs.len() ==> bbox_le(#[trigger] bs[i], fold_union(bs, acc)),
    decreases bs.len(),
{
    if bs.len() > 0 {
        lemma_fold_union_le(bs.drop_first(), spec_bbox_union(acc, bs[0]));
        assert forall|i: int| 0 <= i < bs.len() implies bbox_le(
            #[trigger] bs[i],
            fold_union(bs, acc),
        ) by {
            if i > 0 {
                assert(bs.drop_first()[i - 1] == bs[i]);
            }
        }
    }
}

/// The union of a collection's member boxes covers its start and every
/// member's box.
pub proof fn lemma_bbox_members_le(s: Seq<RawValue>, i: int, acc: Bbox)
    requires
        0 <= i <= s.len(),
    ensures
        bbox_le(acc, bbox_members(s, i, acc)),
        forall|k: int|
            i <= k < s.len() ==> bbox_le(bbox_value(#[trigger] s[k]), bbox_members(s, i, acc)),
    decreases s.len() - i,
{
    if i < s.len() {
        lemma_bbox_members_le(s, i + 1, spec_bbox_union(acc, bbox_value(s[i])));
    }
}

/// Bounding box soundness: every coordinate of a payload that passed its
/// kind's checks lies inside the box computed for it.
pub proof fn lemma_bbox_sound(g: RawValue)
    requires
        valid_value(g),
    ensures
        positions_within(g, bbox_value(g)),
    decreases g,
{
    match g {
        RawValue::Point(p) => {},
        RawValue::LineString(l) => {
            if line_view(l).len() == 0 {
                assert(degenerate_line(line_view(l)));
            }
            lemma_positions_bbox_contains(line_view(l));
            assert forall|i: int| 0 <= i < l@.len() implies bbox_contains(
                bbox_value(g),
                (#[trigger] l@[i]@)[0],
                l@[i]@[1],
            ) by {
                assert(bbox_contains(
                    spec_positions_bbox(line_view(l)),
                    line_view(l)[i][0],
                    line_view(l)[i][1],
                ));
                assert(line_view(l)[i] == l@[i]@);
            }
        },
        RawValue::MultiPoint(ps) => {
            lemma_positions_bbox_contains(line_view(ps));
            assert forall|i: int| 0 <= i < ps@.len() implies bbox_contains(
                bbox_value(g),
                (#[trigger] ps@[i]@)[0],
                ps@[i]@[1],
            ) by {
                assert(bbox_contains(
                    spec_positions_bbox(line_view(ps)),
                    line_view(ps)[i][0],
                    line_view(ps)[i][1],
                ));
                assert(line_view(ps)[i] == ps@[i]@);
            }
        },
        RawValue::Polygon(rs) => {
            lemma_rings_bbox_sound(rings_view(rs));
            assert forall|i: int, j: int|
                0 <= i < rs@.len() && 0 <= j < rs@[i]@.len() implies bbox_contains(
                bbox_value(g),
                (#[trigger] rs@[i]@[j]@)[0],
                rs@[i]@[j]@[1],
            ) by {
                assert(rings_view(rs)[i] == line_view(rs@[i]));
                assert(bbox_contains(
                    spec_rings_bbox(rings_view(rs)),
                    rings_view(rs)[i][j][0],
                    rings_view(rs)[i][j][1],
                ));
                assert(rings_view(rs)[i][j] == rs@[i]@[j]@);
            }
        },
        RawValue::MultiLineString(ls) => {
            lemma_rings_bbox_sound(rings_view(ls));
            assert forall|i: int, j: int|
                0 <= i < ls@.len() && 0 <= j < ls@[i]@.len() implies bbox_contains(
                bbox_value(g),
                (#[trigger] ls@[i]@[j]@)[0],
                ls@[i]@[j]@[1],
            ) by {
                assert(rings_view(ls)[i] == line_view(ls@[i]));
                assert(bbox_contains(
                    spec_rings_bbox(rings_view(ls)),
                    rings_view(ls)[i][j][0],
                    rings_view(ls)[i][j][1],
                ));
                assert(rings_view(ls)[i][j] == ls@[i]@[j]@);
            }
        },
        RawValue::MultiPolygon(ms) => {
            let pv = polygons_view(ms);
            let pb = polygon_bboxes(pv);
            lemma_fold_union_le(pb.drop_first(), pb[0]);
            assert forall|i: int, j: int, k: int|
                0 <= i < ms@.len() && 0 <= j < ms@[i]@.len() && 0 <= k < ms@[i]@[j]@.len()
                    implies bbox_contains(
                bbox_value(g),
                (#[trigger] ms@[i]@[j]@[k]@)[0],
                ms@[i]@[j]@[k]@[1],
            ) by {
                assert(pv[i] == rings_view(ms@[i]));
                assert(pv[i][j] == line_view(ms@[i]@[j]));
                lemma_rings_bbox_sound(pv[i]);
                assert(pv[i][j][k] == ms@[i]@[j]@[k]@);
                assert(bbox_contains(spec_rings_bbox(pv[i]), pv[i][j][k][0], pv[i][j][k][1]));
                assert(pb[i] == spec_rings_bbox(pv[i]));
                if i == 0 {
                    assert(bbox_le(pb[0], union_all(pb)));
                } else {
                    assert(pb.drop_first()[i - 1] == pb[i]);
                    assert(bbox_le(pb[i], union_all(pb)));
                }
            }
        },
        RawValue::GeometryCollection(gs) => {
            let b0 = bbox_value(gs@[0]);
            lemma_bbox_members_le(gs@, 1, b0);
            assert forall|i: int| 0 <= i < gs@.len() implies positions_within(
                #[trigger] gs@[i],
                bbox_value(g),
            ) by {
                lemma_bbox_sound(gs@[i]);
                if i == 0 {
                    assert(bbox_le(b0, bbox_value(g)));
                } else {
                    assert(bbox_le(bbox_value(gs@[i]), bbox_value(g)));
                }
                lemma_positions_within_le(gs@[i], bbox_value(gs@[i]), bbox_value(g));
            }
        },
    }
}

/// Every coordinate of a run of non-empty rings lies inside the union of
/// the rings' boxes.
pub proof fn lemma_rings_bbox_sound(rs: Seq<Seq<Seq<u64>>>)
    requires
        rs.len() > 0,
        forall|i: int| 0 <= i < rs.len() ==> (#[trigger] rs[i]).len() > 0,
    ensures
        forall|i: int, j: int|
            0 <= i < rs.len() && 0 <= j < rs[i].len() ==> bbox_contains(
                spec_rings_bbox(rs),
                (#[trigger] rs[i][j])[0],
                rs[i][j][1],
            ),
{
    let rb = ring_bboxes(rs);
    lemma_fold_union_le(rb.drop_first(), rb[0]);
    assert forall|i: int, j: int|
        0 <= i < rs.len() && 0 <= j < rs[i].len() implies bbox_contains(
        spec_rings_bbox(rs),
        (#[trigger] rs[i][j])[0],
        rs[i][j][1],
    ) by {
        lemma_positions_bbox_contains(rs[i]);
        assert(bbox_contains(spec_positions_bbox(rs[i]), rs[i][j][0], rs[i][j][1]));
        assert(rb[i] == spec_positions_bbox(rs[i]));
        if i == 0 {
            assert(bbox_le(rb[0], union_all(rb)));
        } else {
            assert(rb.drop_first()[i - 1] == rb[i]);
            assert(bbox_le(rb[i], union_all(rb)));
        }
    }
}

/// Computes the bounding box of a payload that passed its kind's checks.
pub fn compute_value_bbox(g: &RawValue) -> (r: Bbox)
    requires
        valid_value(*g),
        positions_ok(*g),
    ensures
        r == bbox_value(*g),
    decreases *g,
{
    match g {
        RawValue::Point(p) => {
            Bbox { min_x: p[0], min_y: p[1], max_x: p[0], max_y: p[1] }
        },
        RawValue::LineString(l) => {
            proof {
                if line_view(*l).len() == 0 {
                    assert(degenerate_line(line_view(*l)));
                }
            }
            crate::bbox::compute_positions_bbox(l)
        },
        RawValue::MultiPoint(ps) => {
            crate::bbox::compute_positions_bbox(ps)
        },
        RawValue::Polygon(rs) => {
            proof {
                lemma_nested_view_bounds(*rs);
            }
            compute_rings_bbox(rs)
        },
        RawValue::MultiLineString(ls) => {
            proof {
                lemma_nested_view_bounds(*ls);
            }
            compute_rings_bbox(ls)
        },
        RawValue::MultiPolygon(ms) => {
            proof {
                lemma_polygons_view_bounds(*ms);
            }
            compute_polygons_bbox(ms)
        },
        RawValue::GeometryCollection(gs) => {
            proof {
                    lemma_positions_ok_from(gs@, 0);
            }
            let mut acc = compute_value_bbox(&gs[0]);
            let mut i: usize = 1;
            while i < gs.len()
                invariant
                    1 <= i <= gs@.len(),
                    *g == RawValue::GeometryCollection(*gs),
                    forall|k: int| 0 <= k < gs@.len() ==> #[trigger] valid_value(gs@[k]),
                    forall|k: int| 0 <= k < gs@.len() ==> #[trigger] positions_ok(gs@[k]),
                    bbox_members(gs@, i as int, acc) == bbox_value(
                        RawValue::GeometryCollection(*gs),
                    ),
                decreases gs@.len() - i,
            {
                let b = compute_value_bbox(&gs[i]);
                acc = acc.union(b);
                i = i + 1;
            }
            acc
        },
    }
}

} // verus!
