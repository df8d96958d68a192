//! The codec between raw payloads (nested component arrays) and typed
//! geometry values: one decode/encode pair per geometry kind.
//!
//! Decoding assumes the payload's positions are long enough to read (at
//! least two components each); it does not check arity — that is the
//! validators' job. Encoding is the structural inverse of decoding on
//! well-formed payloads.
use vstd::prelude::*;

use crate::geometry::{
    Coord, GeoGeometry, GeoLineString, GeoMultiLineString, GeoMultiPoint, GeoMultiPolygon,
    GeoPoint, GeoPolygon,
};
use crate::raw::{line_view, polygons_view, positions_ok, positions_ok_from, rings_view, RawValue};

verus! {

/// The coordinate a position decodes to: its first two components.
pub open spec fn spec_decode_coord(p: Seq<u64>) -> Coord {
    Coord { x: p[0], y: p[1] }
}

/// The coordinates a run of positions decodes to.
pub open spec fn spec_decode_line(l: Seq<Seq<u64>>) -> Seq<Coord> {
    Seq::new(l.len(), |i: int| spec_decode_coord(l[i]))
}

/// The typed points a run of positions decodes to.
pub open spec fn spec_decode_multi_point(l: Seq<Seq<u64>>) -> Seq<GeoPoint> {
    Seq::new(l.len(), |i: int| GeoPoint { coord: spec_decode_coord(l[i]) })
}

/// The exterior ring a polygon payload decodes to: its first ring, or an
/// empty ring when there is none.
pub open spec fn spec_polygon_exterior(rs: Seq<Seq<Seq<u64>>>) -> Seq<Coord> {
    if rs.len() == 0 {
        Seq::empty()
    } else {
        spec_decode_line(rs[0])
    }
}

/// How many interior rings a polygon payload decodes to.
pub open spec fn spec_polygon_interior_count(rs: Seq<Seq<Seq<u64>>>) -> nat {
    if rs.len() <= 1 {
        0
    } else {
        (rs.len() - 1) as nat
    }
}

/// The typed polygon `q` is what the ring list `rs` decodes to.
pub open spec fn polygon_decodes(rs: Seq<Seq<Seq<u64>>>, q: GeoPolygon) -> bool {
    &&& q.exterior.points@ == spec_polygon_exterior(rs)
    &&& q.interiors@.len() == spec_polygon_interior_count(rs)
    &&& forall|i: int|
        0 <= i < q.interiors@.len() ==> (#[trigger] q.interiors@[i]).points@ == spec_decode_line(
            rs[i + 1],
        )
}

/// The typed geometry `t` is what the raw payload `g` decodes to.
pub open spec fn decodes_to(g: RawValue, t: GeoGeometry) -> bool
    decreases g,
{
    match g {
        RawValue::Point(p) => t matches GeoGeometry::Point(q) && q.coord == spec_decode_coord(p@),
        RawValue::LineString(l) => t matches GeoGeometry::LineString(q) && q.points@
            == spec_decode_line(line_view(l)),
        RawValue::MultiPoint(ps) => t matches GeoGeometry::MultiPoint(q) && q.points@
            == spec_decode_multi_point(line_view(ps)),
        RawValue::MultiLineString(ls) => t matches GeoGeometry::MultiLineString(q) && {
            &&& q.lines@.len() == ls@.len()
            &&& forall|i: int|
                0 <= i < q.lines@.len() ==> (#[trigger] q.lines@[i]).points@ == spec_decode_line(
                    rings_view(ls)[i],
                )
        },
        RawValue::Polygon(rs) => t matches GeoGeometry::Polygon(q) && polygon_decodes(
            rings_view(rs),
            q,
        ),
        RawValue::MultiPolygon(ms) => t matches GeoGeometry::MultiPolygon(q) && {
            &&& q.polygons@.len() == ms@.len()
            &&& forall|i: int|
                0 <= i < q.polygons@.len() ==> polygon_decodes(
                    polygons_view(ms)[i],
                    #[trigger] q.polygons@[i],
                )
        },
        RawValue::GeometryCollection(gs) => t matches GeoGeometry::GeometryCollection(ts) && {
            &&& ts@.len() == gs@.len()
            &&& forall|i: int| 0 <= i < ts@.len() ==> decodes_to(gs@[i], #[trigger] ts@[i])
        },
    }
}

/// Decodes one position into a coordinate from its first two components.
pub fn create_geo_coordinate(point_type: &Vec<u64>) -> (r: Coord)
    requires
        point_type@.len() >= 2,
    ensures
        r == spec_decode_coord(point_type@),
{
    Coord { x: point_type[0], y: point_type[1] }
}

/// Decodes one position into a typed point.
pub fn create_geo_point(point_type: &Vec<u64>) -> (r: GeoPoint)
    requires
        point_type@.len() >= 2,
    ensures
        r.coord == spec_decode_coord(point_type@),
{
    GeoPoint { coord: create_geo_coordinate(point_type) }
}

/// Decodes a run of positions into a typed line string.
pub fn create_geo_line_string(line_type: &Vec<Vec<u64>>) -> (r: GeoLineString)
    requires
        forall|i: int| 0 <= i < line_type@.len() ==> (#[trigger] line_type@[i]@).len() >= 2,
    ensures
        r.points@ == spec_decode_line(line_view(*line_type)),
{
    let mut points: Vec<Coord> = Vec::new();
    let mut i: usize = 0;
    while i < line_type.len()
        invariant
            0 <= i <= line_type@.len(),
            forall|k: int| 0 <= k < line_type@.len() ==> (#[trigger] line_type@[k]@).len() >= 2,
            points@.len() == i,
            forall|k: int|
                0 <= k < i ==> #[trigger] points@[k] == spec_decode_coord(line_type@[k]@),
        decreases line_type@.len() - i,
    {
        points.push(create_geo_coordinate(&line_type[i]));
        i = i + 1;
    }
    proof {
        assert(points@ =~= spec_decode_line(line_view(*line_type)));
    }
    GeoLineString { points }
}

/// Decodes a run of positions into a typed multi-point.
pub fn create_geo_multi_point(multipoint_type: &Vec<Vec<u64>>) -> (r: GeoMultiPoint)
    requires
        forall|i: int|
            0 <= i < multipoint_type@.len() ==> (#[trigger] multipoint_type@[i]@).len() >= 2,
    ensures
        r.points@ == spec_decode_multi_point(line_view(*multipoint_type)),
{
    let mut points: Vec<GeoPoint> = Vec::new();
    let mut i: usize = 0;
    while i < multipoint_type.len()
        invariant
            0 <= i <= multipoint_type@.len(),
            forall|k: int|
                0 <= k < multipoint_type@.len() ==> (#[trigger] multipoint_type@[k]@).len() >= 2,
            points@.len() == i,
            forall|k: int|
                0 <= k < i ==> (#[trigger] points@[k]).coord == spec_decode_coord(
                    multipoint_type@[k]@,
                ),
        decreases multipoint_type@.len() - i,
    {
        points.push(create_geo_point(&multipoint_type[i]));
        i = i + 1;
    }
    proof {
        assert(points@ =~= spec_decode_multi_point(line_view(*multipoint_type)));
    }
    GeoMultiPoint { points }
}

/// Decodes a list of rings into a typed multi-line-string.
pub fn create_geo_multi_line_string(multi_line_type: &Vec<Vec<Vec<u64>>>) -> (r:
    GeoMultiLineString)
    requires
        forall|i: int, j: int|
            0 <= i < multi_line_type@.len() && 0 <= j < multi_line_type@[i]@.len() ==> (
            #[trigger] multi_line_type@[i]@[j]@).len() >= 2,
    ensures
        r.lines@.len() == multi_line_type@.len(),
        forall|i: int|
            0 <= i < r.lines@.len() ==> (#[trigger] r.lines@[i]).points@ == spec_decode_line(
                rings_view(*multi_line_type)[i],
            ),
{
    let mut lines: Vec<GeoLineString> = Vec::new();
    let mut i: usize = 0;
    while i < multi_line_type.len()
        invariant
            0 <= i <= multi_line_type@.len(),
            forall|k: int, j: int|
                0 <= k < multi_line_type@.len() && 0 <= j < multi_line_type@[k]@.len() ==> (
                #[trigger] multi_line_type@[k]@[j]@).len() >= 2,
            lines@.len() == i,
            forall|k: int|
                0 <= k < i ==> (#[trigger] lines@[k]).points@ == spec_decode_line(
                    rings_view(*multi_line_type)[k],
                ),
        decreases multi_line_type@.len() - i,
    {
        let line = create_geo_line_string(&multi_line_type[i]);
        proof {
            assert(rings_view(*multi_line_type)[i as int] == line_view(multi_line_type@[i as int]));
        }
        lines.push(line);
        i = i + 1;
    }
    GeoMultiLineString { lines }
}

/// Decodes a ring list into a typed polygon: the first ring becomes the
/// exterior (an empty ring when the list is empty), the rest the interiors.
pub fn create_geo_polygon(polygon_type: &Vec<Vec<Vec<u64>>>) -> (r: GeoPolygon)
    requires
        forall|i: int, j: int|
            0 <= i < polygon_type@.len() && 0 <= j < polygon_type@[i]@.len() ==> (
            #[trigger] polygon_type@[i]@[j]@).len() >= 2,
    ensures
        polygon_decodes(rings_view(*polygon_type), r),
{
    let ghost rv = rings_view(*polygon_type);
    let exterior = if polygon_type.len() == 0 {
        let empty_points: Vec<Coord> = Vec::new();
        proof {
            assert(Seq::<Coord>::empty() =~= spec_polygon_exterior(rv));
        }
        GeoLineString { points: empty_points }
    } else {
        let e = create_geo_line_string(&polygon_type[0]);
        proof {
            assert(rv[0] == line_view(polygon_type@[0]));
        }
        e
    };
    let mut interiors: Vec<GeoLineString> = Vec::new();
    let mut i: usize = 1;
    while i < polygon_type.len()
        invariant
            1 <= i <= polygon_type@.len() || (polygon_type@.len() == 0 && i == 1),
            forall|k: int, j: int|
                0 <= k < polygon_type@.len() && 0 <= j < polygon_type@[k]@.len() ==> (
                #[trigger] polygon_type@[k]@[j]@).len() >= 2,
            interiors@.len() == i - 1 || (polygon_type@.len() == 0 && interiors@.len() == 0),
            forall|k: int|
                0 <= k < interiors@.len() ==> (#[trigger] interiors@[k]).points@
                    == spec_decode_line(rings_view(*polygon_type)[k + 1]),
        decreases polygon_type@.len() - i,
    {
        let ring = create_geo_line_string(&polygon_type[i]);
        proof {
            assert(rings_view(*polygon_type)[i as int] == line_view(polygon_type@[i as int]));
        }
        interiors.push(ring);
        i = i + 1;
    }
    GeoPolygon { exterior, interiors }
}

/// Decodes a list of ring lists into a typed multi-polygon.
pub fn create_geo_multi_polygon(multi_polygon_type: &Vec<Vec<Vec<Vec<u64>>>>) -> (r:
    GeoMultiPolygon)
    requires
        forall|i: int, j: int, k: int|
            0 <= i < multi_polygon_type@.len() && 0 <= j < multi_polygon_type@[i]@.len() && 0 <= k
                < multi_polygon_type@[i]@[j]@.len() ==> (
            #[trigger] multi_polygon_type@[i]@[j]@[k]@).len() >= 2,
    ensures
        r.polygons@.len() == multi_polygon_type@.len(),
        forall|i: int|
            0 <= i < r.polygons@.len() ==> polygon_decodes(
                polygons_view(*multi_polygon_type)[i],
                #[trigger] r.polygons@[i],
            ),
{
    let mut polygons: Vec<GeoPolygon> = Vec::new();
    let mut i: usize = 0;
    while i < multi_polygon_type.len()
        invariant
            0 <= i <= multi_polygon_type@.len(),
            forall|q: int, j: int, k: int|
                0 <= q < multi_polygon_type@.len() && 0 <= j < multi_polygon_type@[q]@.len() && 0
                    <= k < multi_polygon_type@[q]@[j]@.len() ==> (
                #[trigger] multi_polygon_type@[q]@[j]@[k]@).len() >= 2,
            polygons@.len() == i,
            forall|k: int|
                0 <= k < i ==> polygon_decodes(
                    polygons_view(*multi_polygon_type)[k],
                    #[trigger] polygons@[k],
                ),
        decreases multi_polygon_type@.len() - i,
    {
        let polygon = create_geo_polygon(&multi_polygon_type[i]);
        proof {
            assert(polygons_view(*multi_polygon_type)[i as int] == rings_view(
                multi_polygon_type@[i as int],
            ));
        }
        polygons.push(polygon);
        i = i + 1;
    }
    GeoMultiPolygon { polygons }
}

/// Decodes any raw payload into a typed geometry, recursively.
#[verifier::loop_isolation(false)]
pub fn create_geo_geometry(g: &RawValue) -> (r: GeoGeometry)
    requires
        positions_ok(*g),
    ensures
        decodes_to(*g, r),
    decreases *g,
{
    match g {
        RawValue::Point(p) => GeoGeometry::Point(create_geo_point(p)),
        RawValue::LineString(l) => GeoGeometry::LineString(create_geo_line_string(l)),
        RawValue::MultiPoint(ps) => GeoGeometry::MultiPoint(create_geo_multi_point(ps)),
        RawValue::MultiLineString(ls) => GeoGeometry::MultiLineString(
            create_geo_multi_line_string(ls),
        ),
        RawValue::Polygon(rs) => GeoGeometry::Polygon(create_geo_polygon(rs)),
        RawValue::MultiPolygon(ms) => GeoGeometry::MultiPolygon(create_geo_multi_polygon(ms)),
        RawValue::GeometryCollection(gs) => {
            proof {
                crate::raw::lemma_positions_ok_from(gs@, 0);
            }
            let mut members: Vec<GeoGeometry> = Vec::new();
            let mut i: usize = 0;
            while i < gs.len()
                invariant
                    0 <= i <= gs@.len(),
                    *g == RawValue::GeometryCollection(*gs),
                    forall|k: int| 0 <= k < gs@.len() ==> #[trigger] positions_ok(gs@[k]),
                    members@.len() == i,
                    forall|k: int| 0 <= k < i ==> decodes_to(gs@[k], #[trigger] members@[k]),
                decreases gs@.len() - i,
            {
                let member = create_geo_geometry(&gs[i]);
                members.push(member);
                i = i + 1;
            }
            GeoGeometry::GeometryCollection(members)
        },
    }
}

/// The position a coordinate encodes to: exactly its two components.
pub open spec fn spec_encode_coord(c: Coord) -> Seq<u64> {
    seq![c.x, c.y]
}

/// The positions a run of coordinates encodes to.
pub open spec fn spec_encode_line(s: Seq<Coord>) -> Seq<Seq<u64>> {
    Seq::new(s.len(), |i: int| spec_encode_coord(s[i]))
}

/// The ring lists a run of typed line strings encodes to.
pub open spec fn spec_encode_line_strings(ls: Seq<GeoLineString>) -> Seq<Seq<Seq<u64>>> {
    Seq::new(ls.len(), |i: int| spec_encode_line(ls[i].points@))
}

/// The ring list a typed polygon encodes to: the exterior ring first, then
/// the interiors.
pub open spec fn spec_encode_polygon(q: GeoPolygon) -> Seq<Seq<Seq<u64>>> {
    seq![spec_encode_line(q.exterior.points@)] + spec_encode_line_strings(q.interiors@)
}

/// The polygon lists a run of typed polygons encodes to.
pub open spec fn spec_encode_polygons(qs: Seq<GeoPolygon>) -> Seq<Seq<Seq<Seq<u64>>>> {
    Seq::new(qs.len(), |i: int| spec_encode_polygon(qs[i]))
}

/// Encodes a typed point back into a position.
pub fn create_point_type(point: &GeoPoint) -> (r: Vec<u64>)
    ensures
        r@ == spec_encode_coord(point.coord),
{
    let mut r: Vec<u64> = Vec::new();
    r.push(point.coord.x);
    r.push(point.coord.y);
    proof {
        assert(r@ =~= spec_encode_coord(point.coord));
    }
    r
}

/// Encodes a typed line string back into a run of positions.
pub fn create_line_string_type(line_string: &GeoLineString) -> (r: Vec<Vec<u64>>)
    ensures
        line_view(r) == spec_encode_line(line_string.points@),
{
    let mut r: Vec<Vec<u64>> = Vec::new();
    let mut i: usize = 0;
    while i < line_string.points.len()
        invariant
            0 <= i <= line_string.points@.len(),
            r@.len() == i,
            forall|k: int|
                0 <= k < i ==> #[trigger] r@[k]@ == spec_encode_coord(line_string.points@[k]),
        decreases line_string.points@.len() - i,
    {
        let p = GeoPoint { coord: line_string.points[i] };
        r.push(create_point_type(&p));
        i = i + 1;
    }
    proof {
        assert(line_view(r) =~= spec_encode_line(line_string.points@));
    }
    r
}

/// Encodes a typed multi-line-string back into a list of rings.
pub fn create_multi_line_string_type(multi_line_string: &GeoMultiLineString) -> (r: Vec<
    Vec<Vec<u64>>,
>)
    ensures
        rings_view(r) == spec_encode_line_strings(multi_line_string.lines@),
{
    let mut r: Vec<Vec<Vec<u64>>> = Vec::new();
    let mut i: usize = 0;
    while i < multi_line_string.lines.len()
        invariant
            0 <= i <= multi_line_string.lines@.len(),
            r@.len() == i,
            forall|k: int|
                0 <= k < i ==> line_view(#[trigger] r@[k]) == spec_encode_line(
                    multi_line_string.lines@[k].points@,
                ),
        decreases multi_line_string.lines@.len() - i,
    {
        r.push(create_line_string_type(&multi_line_string.lines[i]));
        i = i + 1;
    }
    proof {
        assert(rings_view(r) =~= spec_encode_line_strings(multi_line_string.lines@));
    }
    r
}

/// Encodes a typed polygon back into a ring list: the exterior ring first,
/// then the interiors.
pub fn create_polygon_type(polygon: &GeoPolygon) -> (r: Vec<Vec<Vec<u64>>>)
    ensures
        rings_view(r) == spec_encode_polygon(*polygon),
{
    let mut r: Vec<Vec<Vec<u64>>> = Vec::new();
    r.push(create_line_string_type(&polygon.exterior));
    let mut i: usize = 0;
    while i < polygon.interiors.len()
        invariant
            0 <= i <= polygon.interiors@.len(),
            r@.len() == i + 1,
            line_view(r@[0]) == spec_encode_line(polygon.exterior.points@),
            forall|k: int|
                0 <= k < i ==> line_view(#[trigger] r@[k + 1]) == spec_encode_line(
                    polygon.interiors@[k].points@,
                ),
        decreases polygon.interiors@.len() - i,
    {
        r.push(create_line_string_type(&polygon.interiors[i]));
        i = i + 1;
    }
    proof {
        assert forall|k: int| 0 <= k < rings_view(r).len() implies rings_view(r)[k]
            == spec_encode_polygon(*polygon)[k] by {
            if k > 0 {
                assert(line_view(r@[(k - 1) + 1]) == spec_encode_line(
                    polygon.interiors@[k - 1].points@,
                ));
            }
        }
        assert(rings_view(r) =~= spec_encode_polygon(*polygon));
    }
    r
}

/// Encodes a typed multi-polygon back into a list of ring lists.
pub fn create_multi_polygon_type(multi_polygon: &GeoMultiPolygon) -> (r: Vec<Vec<Vec<Vec<u64>>>>)
    ensures
        polygons_view(r) == spec_encode_polygons(multi_polygon.polygons@),
{
    let mut r: Vec<Vec<Vec<Vec<u64>>>> = Vec::new();
    let mut i: usize = 0;
    while i < multi_polygon.polygons.len()
        invariant
            0 <= i <= multi_polygon.polygons@.len(),
            r@.len() == i,
            forall|k: int|
                0 <= k < i ==> rings_view(#[trigger] r@[k]) == spec_encode_polygon(
                    multi_polygon.polygons@[k],
                ),
        decreases multi_polygon.polygons@.len() - i,
    {
        r.push(create_polygon_type(&multi_polygon.polygons[i]));
        i = i + 1;
    }
    proof {
        assert(polygons_view(r) =~= spec_encode_polygons(multi_polygon.polygons@));
    }
    r
}

/// Decodes a collection's members into typed geometries.
pub fn create_geo_geometry_collection(geometries: &Vec<RawValue>) -> (r: Vec<GeoGeometry>)
    requires
        positions_ok_from(geometries@, 0),
    ensures
        r@.len() == geometries@.len(),
        forall|i: int| 0 <= i < r@.len() ==> decodes_to(geometries@[i], #[trigger] r@[i]),
{
    proof {
        crate::raw::lemma_positions_ok_from(geometries@, 0);
    }
    let mut members: Vec<GeoGeometry> = Vec::new();
    let mut i: usize = 0;
    while i < geometries.len()
        invariant
            0 <= i <= geometries@.len(),
            forall|k: int| 0 <= k < geometries@.len() ==> #[trigger] positions_ok(geometries@[k]),
            members@.len() == i,
            forall|k: int| 0 <= k < i ==> decodes_to(geometries@[k], #[trigger] members@[k]),
        decreases geometries@.len() - i,
    {
        let member = create_geo_geometry(&geometries[i]);
        members.push(member);
        i = i + 1;
    }
    members
}

/// Every position of every ring has exactly two components.
pub open spec fn rings_arity_ok(rs: Seq<Seq<Seq<u64>>>) -> bool {
    forall|i: int, j: int|
        0 <= i < rs.len() && 0 <= j < rs[i].len() ==> (#[trigger] rs[i][j]).len() == 2
}

/// A raw payload is well-formed for the codec: every position has exactly
/// two components, and every polygon has at least one ring. Encoding the
/// decoded payload gives back exactly such a payload.
pub open spec fn wf_value(g: RawValue) -> bool
    decreases g, 0int, 0int,
{
    match g {
        RawValue::Point(p) => p@.len() == 2,
        RawValue::LineString(l) => crate::raw::line_arity_ok(line_view(l)),
        RawValue::MultiPoint(ps) => crate::raw::line_arity_ok(line_view(ps)),
        RawValue::MultiLineString(ls) => rings_arity_ok(rings_view(ls)),
        RawValue::Polygon(rs) => rs@.len() > 0 && rings_arity_ok(rings_view(rs)),
        RawValue::MultiPolygon(ms) => (forall|i: int|
            0 <= i < ms@.len() ==> (#[trigger] ms@[i]@).len() > 0) && (forall|i: int|
            0 <= i < ms@.len() ==> rings_arity_ok(#[trigger] polygons_view(ms)[i])),
        RawValue::GeometryCollection(gs) => wf_from(gs@, 0),
    }
}

/// `wf_value` for every member of `s` from index `i` on.
pub open spec fn wf_from(s: Seq<RawValue>, i: int) -> bool
    decreases s, s.len() - i, 0int
        when 0 <= i <= s.len()
{
    if i == s.len() {
        true
    } else {
        wf_value(s[i]) && wf_from(s, i + 1)
    }
}

/// When every member from `i` on is well-formed, each one alone is.
pub proof fn lemma_wf_from(s: Seq<RawValue>, i: int)
    requires
        0 <= i <= s.len(),
        wf_from(s, i),
    ensures
        forall|k: int| i <= k < s.len() ==> #[trigger] wf_value(s[k]),
    decreases s.len() - i,
{
    if i < s.len() {
        lemma_wf_from(s, i + 1);
    }
}

/// Round trip of one position: encoding the decoded coordinate gives the
/// position back, when it has exactly two components.
pub proof fn lemma_coord_round_trip(p: Seq<u64>)
    requires
        p.len() == 2,
    ensures
        spec_encode_coord(spec_decode_coord(p)) == p,
{
    assert(spec_encode_coord(spec_decode_coord(p)) =~= p);
}

/// Round trip of a run of positions with exactly two components each.
pub proof fn lemma_line_round_trip(l: Seq<Seq<u64>>)
    requires
        crate::raw::line_arity_ok(l),
    ensures
        spec_encode_line(spec_decode_line(l)) == l,
{
    assert forall|i: int| 0 <= i < l.len() implies spec_encode_line(spec_decode_line(l))[i]
        == l[i] by {
        lemma_coord_round_trip(l[i]);
    }
    assert(spec_encode_line(spec_decode_line(l)) =~= l);
}

/// Round trip of a polygon's ring list: encoding the decoded polygon gives
/// the list back, when it is non-empty and every position has exactly two
/// components.
pub proof fn lemma_polygon_round_trip(rs: Seq<Seq<Seq<u64>>>, q: GeoPolygon)
    requires
        rs.len() > 0,
        rings_arity_ok(rs),
        polygon_decodes(rs, q),
    ensures
        spec_encode_polygon(q) == rs,
{
    assert forall|k: int| 0 <= k < spec_encode_polygon(q).len() implies spec_encode_polygon(q)[k]
        == rs[k] by {
        if k == 0 {
            lemma_line_round_trip(rs[0]);
        } else {
            assert(q.interiors@[k - 1].points@ == spec_decode_line(rs[k]));
            lemma_line_round_trip(rs[k]);
            assert(spec_encode_polygon(q)[k] == spec_encode_line_strings(q.interiors@)[k - 1]);
        }
    }
    assert(spec_encode_polygon(q) =~= rs);
}

/// The typed geometry `t` encodes back to exactly the raw payload `g`.
pub open spec fn encodes_to(t: GeoGeometry, g: RawValue) -> bool
    decreases g,
{
    match g {
        RawValue::Point(p) => t matches GeoGeometry::Point(q) && spec_encode_coord(q.coord) == p@,
        RawValue::LineString(l) => t matches GeoGeometry::LineString(q) && spec_encode_line(
            q.points@,
        ) == line_view(l),
        RawValue::MultiPoint(ps) => t matches GeoGeometry::MultiPoint(q) && {
            &&& q.points@.len() == ps@.len()
            &&& forall|i: int|
                0 <= i < q.points@.len() ==> spec_encode_coord((#[trigger] q.points@[i]).coord)
                    == line_view(ps)[i]
        },
        RawValue::MultiLineString(ls) => t matches GeoGeometry::MultiLineString(q)
            && spec_encode_line_strings(q.lines@) == rings_view(ls),
        RawValue::Polygon(rs) => t matches GeoGeometry::Polygon(q) && spec_encode_polygon(q)
            == rings_view(rs),
        RawValue::MultiPolygon(ms) => t matches GeoGeometry::MultiPolygon(q)
            && spec_encode_polygons(q.polygons@) == polygons_view(ms),
        RawValue::GeometryCollection(gs) => t matches GeoGeometry::GeometryCollection(ts) && {
            &&& ts@.len() == gs@.len()
            &&& forall|i: int| 0 <= i < ts@.len() ==> encodes_to(#[trigger] ts@[i], gs@[i])
        },
    }
}

/// Round trip of the codec: whatever a well-formed raw payload decodes to
/// encodes back to exactly that payload, for every geometry kind, including
/// nested collections.
pub proof fn lemma_round_trip(g: RawValue, t: GeoGeometry)
    requires
        wf_value(g),
        decodes_to(g, t),
    ensures
        encodes_to(t, g),
    decreases g,
{
    match g {
        RawValue::Point(p) => {
            lemma_coord_round_trip(p@);
        },
        RawValue::LineString(l) => {
            lemma_line_round_trip(line_view(l));
        },
        RawValue::MultiPoint(ps) => {
            let q = t->MultiPoint_0;
            assert forall|i: int| 0 <= i < q.points@.len() implies spec_encode_coord(
                (#[trigger] q.points@[i]).coord,
            ) == line_view(ps)[i] by {
                assert(q.points@[i] == spec_decode_multi_point(line_view(ps))[i]);
                lemma_coord_round_trip(line_view(ps)[i]);
            }
        },
        RawValue::MultiLineString(ls) => {
            let q = t->MultiLineString_0;
            assert forall|i: int| 0 <= i < q.lines@.len() implies spec_encode_line_strings(
                q.lines@,
            )[i] == rings_view(ls)[i] by {
                lemma_line_round_trip(rings_view(ls)[i]);
            }
            assert(spec_encode_line_strings(q.lines@) =~= rings_view(ls));
        },
        RawValue::Polygon(rs) => {
            lemma_polygon_round_trip(rings_view(rs), t->Polygon_0);
        },
        RawValue::MultiPolygon(ms) => {
            let q = t->MultiPolygon_0;
            assert forall|i: int| 0 <= i < q.polygons@.len() implies spec_encode_polygons(
                q.polygons@,
            )[i] == polygons_view(ms)[i] by {
                assert((#[trigger] ms@[i]@).len() > 0);
                assert(polygons_view(ms)[i].len() == ms@[i]@.len());
                lemma_polygon_round_trip(polygons_view(ms)[i], q.polygons@[i]);
            }
            assert(spec_encode_polygons(q.polygons@) =~= polygons_view(ms));
        },
        RawValue::GeometryCollection(gs) => {
            let ts = t->GeometryCollection_0;
            lemma_wf_from(gs@, 0);
            assert forall|i: int| 0 <= i < ts@.len() implies encodes_to(
                #[trigger] ts@[i],
                gs@[i],
            ) by {
                lemma_round_trip(gs@[i], ts@[i]);
            }
        },
    }
}

} // verus!
