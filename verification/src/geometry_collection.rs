//! `GeometryCollectionFeature`: a validated collection of geometries with
//! its bounding box and the metadata carried over from the raw record.
use vstd::prelude::*;

use crate::bbox::Bbox;
use crate::conversion::{create_geo_geometry_collection, decodes_to};
use crate::error::GeoJsonConversionError;
use crate::geometry::GeoGeometry;
use crate::json::JsonObject;
use crate::linestring_feature::LineStringFeature;
use crate::multilinestring_feature::MultiLineStringFeature;
use crate::multipoint_feature::MultiPointFeature;
use crate::multipolygon_feature::MultiPolygonFeature;
use crate::point_feature::PointFeature;
use crate::polygon_feature::PolygonFeature;
use crate::raw::{
    bbox_members, bbox_value, leaf_bboxes, leaf_bboxes_from, lemma_positions_ok_from,
    positions_ok, positions_ok_from, valid_value, RawValue,
};
use crate::record::FeatureRecord;

verus! {

/// A feature whose geometry is an ordered collection of raw geometries,
/// possibly nested, ready for spatial indexing.
#[derive(Debug)]
pub struct GeometryCollectionFeature {
    pub bbox: Bbox,
    pub geometries: Vec<RawValue>,
    pub id: Option<geojson::feature::Id>,
    pub properties: Option<JsonObject>,
    pub foreign_members: Option<JsonObject>,
}

/// Building a collection feature from `feature` succeeds with exactly `f`.
pub open spec fn spec_build_ok(feature: FeatureRecord, f: GeometryCollectionFeature) -> bool {
    feature.geometry matches Some(RawValue::GeometryCollection(gs)) && valid_value(
        RawValue::GeometryCollection(gs),
    ) && f.geometries == gs && f.bbox == (if feature.bbox is Some {
        feature.bbox->0
    } else {
        bbox_value(RawValue::GeometryCollection(gs))
    }) && f.id == feature.id && f.properties == feature.properties && f.foreign_members
        == feature.foreign_members
}

/// Building a collection feature from `feature` fails with exactly `e`.
pub open spec fn spec_build_err(feature: FeatureRecord, e: GeoJsonConversionError) -> bool {
    match feature.geometry {
        None => e == GeoJsonConversionError::MissingGeometry(feature.id),
        Some(g) => match g {
            RawValue::GeometryCollection(gs) => !valid_value(
                RawValue::GeometryCollection(gs),
            ) && e == GeoJsonConversionError::MalformedGeometry(feature.id),
            _ => e matches GeoJsonConversionError::IncorrectGeometryValue(s) && s@
                == "Error: did not find GeometryCollection feature"@,
        },
    }
}

/// Building a collection feature cannot decode a position that is too
/// short: when the member list is valid and no box is supplied, computing
/// one reads the first two components of every position.
pub open spec fn spec_build_safe(feature: FeatureRecord) -> bool {
    feature.geometry matches Some(RawValue::GeometryCollection(gs)) ==> ((valid_value(
        RawValue::GeometryCollection(gs),
    ) && feature.bbox is None) ==> positions_ok(RawValue::GeometryCollection(gs)))
}

/// Collects the boxes of one payload's leaf geometries, in order: one box
/// for a leaf kind, a collection flattened recursively.
#[verifier::loop_isolation(false)]
pub fn value_bounding_rects(g: &RawValue) -> (r: Vec<Bbox>)
    requires
        valid_value(*g),
        positions_ok(*g),
    ensures
        r@ == leaf_bboxes(*g),
    decreases *g, 0int,
{
    match g {
        RawValue::GeometryCollection(gs) => {
            proof {
                assert(forall|k: int|
                    0 <= k < gs@.len() ==> #[trigger] valid_value(gs@[k]));
                lemma_positions_ok_from(gs@, 0);
            }
            convert_bounding_rect(gs)
        },
        _ => {
            let b = crate::raw::compute_value_bbox(g);
            let mut v: Vec<Bbox> = Vec::new();
            v.push(b);
            proof {
                assert(v@ =~= leaf_bboxes(*g));
            }
            v
        },
    }
}

/// Flattens a collection into the boxes of its members' leaf geometries,
/// recursing through nested collections, in order.
#[verifier::loop_isolation(false)]
pub fn convert_bounding_rect(geometries: &Vec<RawValue>) -> (r: Vec<Bbox>)
    requires
        forall|k: int| 0 <= k < geometries@.len() ==> #[trigger] valid_value(geometries@[k]),
        forall|k: int| 0 <= k < geometries@.len() ==> #[trigger] positions_ok(geometries@[k]),
    ensures
        r@ == leaf_bboxes_from(geometries@, 0),
    decreases *geometries, 1int,
{
    let mut out: Vec<Bbox> = Vec::new();
    proof {
        assert(out@ + leaf_bboxes_from(geometries@, 0) =~= leaf_bboxes_from(geometries@, 0));
    }
    let mut i: usize = 0;
    while i < geometries.len()
        invariant
            0 <= i <= geometries@.len(),
            out@ + leaf_bboxes_from(geometries@, i as int) == leaf_bboxes_from(geometries@, 0),
        decreases geometries@.len() - i,
    {
        let mut part = value_bounding_rects(&geometries[i]);
        proof {
            assert((out@ + part@) + leaf_bboxes_from(geometries@, i + 1) =~= out@
                + leaf_bboxes_from(geometries@, i as int));
        }
        out.append(&mut part);
        i = i + 1;
    }
    proof {
        assert(leaf_bboxes_from(geometries@, geometries@.len() as int)
            =~= Seq::<Bbox>::empty());
        assert(out@ + Seq::<Bbox>::empty() =~= out@);
    }
    out
}

/// Checks one geometry against its own kind's structural rules.
#[verifier::loop_isolation(false)]
pub fn check_geometry_value(g: &RawValue) -> (r: bool)
    ensures
        r == valid_value(*g),
    decreases *g, 1int,
{
    match g {
        RawValue::Point(p) => PointFeature::check_geometry(p),
        RawValue::LineString(l) => LineStringFeature::check_geometry(l),
        RawValue::MultiPoint(ps) => MultiPointFeature::check_geometry(ps),
        RawValue::MultiLineString(ls) => MultiLineStringFeature::check_geometry(ls),
        RawValue::Polygon(rs) => PolygonFeature::check_geometry(rs),
        RawValue::MultiPolygon(ms) => MultiPolygonFeature::check_geometry(ms),
        RawValue::GeometryCollection(gs) => GeometryCollectionFeature::check_geometry(gs),
    }
}

impl GeometryCollectionFeature {
    /// The raw member geometries this feature was built from.
    pub fn geometries(&self) -> (r: &Vec<RawValue>)
        ensures
            r == &self.geometries,
    {
        &self.geometries
    }

    /// The typed geometries this feature's members decode to.
    pub fn geo_geometry(&self) -> (r: Vec<GeoGeometry>)
        requires
            positions_ok_from(self.geometries@, 0),
        ensures
            r@.len() == self.geometries@.len(),
            forall|i: int| 0 <= i < r@.len() ==> decodes_to(self.geometries@[i], #[trigger] r@[i]),
    {
        create_geo_geometry_collection(&self.geometries)
    }

    /// This feature's bounding box.
    pub fn bbox(&self) -> (r: Bbox)
        ensures
            r == self.bbox,
    {
        self.bbox
    }

    /// The envelope handed to a spatial index: the bounding box.
    pub fn envelope(&self) -> (r: Bbox)
        ensures
            r == self.bbox,
    {
        self.bbox
    }

    /// Checks a collection payload: a non-empty member list in which every
    /// member passes its own kind's checks.
    #[verifier::loop_isolation(false)]
    pub fn check_geometry(geometry: &Vec<RawValue>) -> (r: bool)
        ensures
            r == valid_value(RawValue::GeometryCollection(*geometry)),
        decreases *geometry, 0int,
    {
        if geometry.len() == 0 {
            return false;
        }
        let mut i: usize = 0;
        while i < geometry.len()
            invariant
                0 <= i <= geometry@.len(),
                forall|k: int| 0 <= k < i ==> #[trigger] valid_value(geometry@[k]),
            decreases geometry@.len() - i,
        {
            if !check_geometry_value(&geometry[i]) {
                proof {
                    assert(!valid_value(geometry@[i as int]));
                }
                return false;
            }
            i = i + 1;
        }
        proof {
            assert forall|k: int|
                0 <= k < geometry@.len() implies valid_value(#[trigger] geometry@[k]) by {}
            assert(valid_value(RawValue::GeometryCollection(*geometry)));
        }
        true
    }

    /// Computes the box of a valid collection payload: the union of its
    /// members' boxes, in order.
    pub fn compute_bbox(geometry: &Vec<RawValue>) -> (r: Bbox)
        requires
            valid_value(RawValue::GeometryCollection(*geometry)),
            positions_ok_from(geometry@, 0),
        ensures
            r == bbox_value(RawValue::GeometryCollection(*geometry)),
    {
        proof {
            assert(forall|k: int|
                0 <= k < geometry@.len() ==> #[trigger] valid_value(geometry@[k]));
            lemma_positions_ok_from(geometry@, 0);
        }
        let mut acc = crate::raw::compute_value_bbox(&geometry[0]);
        let mut i: usize = 1;
        while i < geometry.len()
            invariant
                1 <= i <= geometry@.len(),
                forall|k: int| 0 <= k < geometry@.len() ==> #[trigger] valid_value(
                    geometry@[k],
                ),
                forall|k: int| 0 <= k < geometry@.len() ==> #[trigger] positions_ok(geometry@[k]),
                bbox_members(geometry@, i as int, acc) == bbox_value(
                    RawValue::GeometryCollection(*geometry),
                ),
            decreases geometry@.len() - i,
        {
            let b = crate::raw::compute_value_bbox(&geometry[i]);
            acc = acc.union(b);
            i = i + 1;
        }
        acc
    }

    /// Assembles the feature from its validated parts, carrying the
    /// identifier and both maps over from the record unchanged.
    pub fn create_self(
        bbox: Bbox,
        geometry: Vec<RawValue>,
        id: Option<geojson::feature::Id>,
        properties: Option<JsonObject>,
        foreign_members: Option<JsonObject>,
    ) -> (r: GeometryCollectionFeature)
        ensures
            r.bbox == bbox,
            r.geometries == geometry,
            r.id == id,
            r.properties == properties,
            r.foreign_members == foreign_members,
    {
        GeometryCollectionFeature { bbox, geometries: geometry, id, properties, foreign_members }
    }

    /// Builds a collection feature from a raw record: extract the member
    /// list, validate every member, take the supplied bounding box or
    /// compute one, and assemble the feature.
    pub fn try_from(feature: FeatureRecord) -> (r: Result<
        GeometryCollectionFeature,
        GeoJsonConversionError,
    >)
        requires
            spec_build_safe(feature),
        ensures
            match r {
                Ok(f) => spec_build_ok(feature, f),
                Err(e) => spec_build_err(feature, e),
            },
    {
        let FeatureRecord { bbox, geometry, id, properties, foreign_members } = feature;
        match geometry {
            None => Err(GeoJsonConversionError::MissingGeometry(id)),
            Some(RawValue::GeometryCollection(geometry_collection)) => {
                if !Self::check_geometry(&geometry_collection) {
                    return Err(GeoJsonConversionError::MalformedGeometry(id));
                }
                let bb = match bbox {
                    Some(b) => b,
                    None => Self::compute_bbox(&geometry_collection),
                };
                Ok(Self::create_self(bb, geometry_collection, id, properties, foreign_members))
            },
            Some(_) => Err(
                GeoJsonConversionError::IncorrectGeometryValue(
                    "Error: did not find GeometryCollection feature".to_owned(),
                ),
            ),
        }
    }

    /// Turns the feature back into a raw record, the exact inverse of
    /// building it: the members, box, identifier and maps are all kept.
    pub fn into_record(self) -> (r: FeatureRecord)
        ensures
            r.geometry == Some(RawValue::GeometryCollection(self.geometries)),
            r.bbox == Some(self.bbox),
            r.id == self.id,
            r.properties == self.properties,
            r.foreign_members == self.foreign_members,
    {
        FeatureRecord {
            bbox: Some(self.bbox),
            geometry: Some(RawValue::GeometryCollection(self.geometries)),
            id: self.id,
            properties: self.properties,
            foreign_members: self.foreign_members,
        }
    }
}

} // verus!
