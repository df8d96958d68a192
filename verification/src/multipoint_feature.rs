//! `MultiPointFeature`: a validated multi-point geometry with its bounding
//! box and the metadata carried over from the raw record.
use vstd::prelude::*;

use crate::bbox::Bbox;
use crate::conversion::{create_geo_multi_point, spec_decode_multi_point};
use crate::error::GeoJsonConversionError;
use crate::geometry::GeoMultiPoint;
use crate::json::JsonObject;
use crate::raw::{bbox_value, line_view, valid_multi_point, RawValue};
use crate::record::FeatureRecord;

verus! {

/// A feature whose geometry is a list of points, ready for spatial indexing.
#[derive(Debug)]
pub struct MultiPointFeature {
    pub bbox: Bbox,
    pub points: Vec<Vec<u64>>,
    pub id: Option<geojson::feature::Id>,
    pub properties: Option<JsonObject>,
    pub foreign_members: Option<JsonObject>,
}

/// Building a multi-point feature from `feature` succeeds with exactly `f`.
pub open spec fn spec_build_ok(feature: FeatureRecord, f: MultiPointFeature) -> bool {
    feature.geometry matches Some(RawValue::MultiPoint(ps)) && valid_multi_point(line_view(ps))
        && f.points == ps && f.bbox == (if feature.bbox is Some {
        feature.bbox->0
    } else {
        bbox_value(RawValue::MultiPoint(ps))
    }) && f.id == feature.id && f.properties == feature.properties && f.foreign_members
        == feature.foreign_members
}

/// Building a multi-point feature from `feature` fails with exactly `e`.
pub open spec fn spec_build_err(feature: FeatureRecord, e: GeoJsonConversionError) -> bool {
    match feature.geometry {
        None => e == GeoJsonConversionError::MissingGeometry(feature.id),
        Some(g) => match g {
            RawValue::MultiPoint(ps) => !valid_multi_point(line_view(ps)) && e
                == GeoJsonConversionError::MalformedGeometry(feature.id),
            _ => e matches GeoJsonConversionError::IncorrectGeometryValue(s) && s@
                == "Error: did not find a MultiPoint feature"@,
        },
    }
}

impl MultiPointFeature {
    /// The raw positions this feature was built from.
    pub fn points(&self) -> (r: &Vec<Vec<u64>>)
        ensures
            r == &self.points,
    {
        &self.points
    }

    /// The typed points this feature's positions decode to.
    pub fn geo_points(&self) -> (r: GeoMultiPoint)
        requires
            forall|i: int| 0 <= i < self.points@.len() ==> (#[trigger] self.points@[i]@).len() >= 2,
        ensures
            r.points@ == spec_decode_multi_point(line_view(self.points)),
    {
        create_geo_multi_point(&self.points)
    }

    /// This feature's bounding box.
    pub fn bbox(&self) -> (r: Bbox)
        ensures
            r == self.bbox,
    {
        self.bbox
    }

    /// The envelope handed to a spatial index: the bounding box.
    pub fn envelope(&self) -> (r: Bbox)
        ensures
            r == self.bbox,
    {
        self.bbox
    }

    /// Checks a multi-point payload: a non-empty point list in which every
    /// position has exactly two components.
    pub fn check_geometry(geometry: &Vec<Vec<u64>>) -> (r: bool)
        ensures
            r == valid_multi_point(line_view(*geometry)),
    {
        let ghost lv = line_view(*geometry);
        if geometry.len() == 0 {
            return false;
        }
        let mut i: usize = 0;
        while i < geometry.len()
            invariant
                0 <= i <= lv.len(),
                lv.len() > 0,
                lv == line_view(*geometry),
                forall|k: int| 0 <= k < i ==> (#[trigger] lv[k]).len() == 2,
            decreases geometry@.len() - i,
        {
            if geometry[i].len() != 2 {
                proof {
                    assert(lv[i as int].len() != 2);
                    assert(!crate::raw::line_arity_ok(lv));
                }
                return false;
            }
            i = i + 1;
        }
        true
    }

    /// Computes the box of a valid multi-point payload: the extremes of its
    /// positions.
    pub fn compute_bbox(geometry: &Vec<Vec<u64>>) -> (r: Bbox)
        requires
            valid_multi_point(line_view(*geometry)),
        ensures
            r == bbox_value(RawValue::MultiPoint(*geometry)),
    {
        proof {
            assert forall|i: int| 0 <= i < geometry@.len() implies (#[trigger] geometry@[i]@).len()
                >= 2 by {
                assert(line_view(*geometry)[i].len() == 2);
            }
        }
        crate::bbox::compute_positions_bbox(geometry)
    }

    /// Assembles the feature from its validated parts, carrying the
    /// identifier and both maps over from the record unchanged.
    pub fn create_self(
        bbox: Bbox,
        geometry: Vec<Vec<u64>>,
        id: Option<geojson::feature::Id>,
        properties: Option<JsonObject>,
        foreign_members: Option<JsonObject>,
    ) -> (r: MultiPointFeature)
        ensures
            r.bbox == bbox,
            r.points == geometry,
            r.id == id,
            r.properties == properties,
            r.foreign_members == foreign_members,
    {
        MultiPointFeature { bbox, points: geometry, id, properties, foreign_members }
    }

    /// Builds a multi-point feature from a raw record: extract the payload,
    /// validate it, take the supplied bounding box or compute one, and
    /// assemble the feature.
    pub fn try_from(feature: FeatureRecord) -> (r: Result<
        MultiPointFeature,
        GeoJsonConversionError,
    >)
        ensures
            match r {
                Ok(f) => spec_build_ok(feature, f),
                Err(e) => spec_build_err(feature, e),
            },
    {
        let FeatureRecord { bbox, geometry, id, properties, foreign_members } = feature;
        match geometry {
            None => Err(GeoJsonConversionError::MissingGeometry(id)),
            Some(RawValue::MultiPoint(multipoint_type)) => {
                if !Self::check_geometry(&multipoint_type) {
                    return Err(GeoJsonConversionError::MalformedGeometry(id));
                }
                let bb = match bbox {
                    Some(b) => b,
                    None => Self::compute_bbox(&multipoint_type),
                };
                Ok(Self::create_self(bb, multipoint_type, id, properties, foreign_members))
            },
            Some(_) => Err(
                GeoJsonConversionError::IncorrectGeometryValue(
                    "Error: did not find a MultiPoint feature".to_owned(),
                ),
            ),
        }
    }

    /// Turns the feature back into a raw record, the exact inverse of
    /// building it: the payload, box, identifier and maps are all kept.
    pub fn into_record(self) -> (r: FeatureRecord)
        ensures
            r.geometry == Some(RawValue::MultiPoint(self.points)),
            r.bbox == Some(self.bbox),
            r.id == self.id,
            r.properties == self.properties,
            r.foreign_members == self.foreign_members,
    {
        FeatureRecord {
            bbox: Some(self.bbox),
            geometry: Some(RawValue::MultiPoint(self.points)),
            id: self.id,
            properties: self.properties,
            foreign_members: self.foreign_members,
        }
    }
}

} // verus!
