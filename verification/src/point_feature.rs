//! `PointFeature`: a validated point geometry with its bounding box and the
//! metadata carried over from the raw record.
use vstd::prelude::*;

use crate::bbox::Bbox;
use crate::conversion::{create_geo_point, spec_decode_coord};
use crate::error::GeoJsonConversionError;
use crate::geometry::GeoPoint;
use crate::json::JsonObject;
use crate::raw::{bbox_value, valid_point, RawValue};
use crate::record::FeatureRecord;

verus! {

/// A feature whose geometry is a single point, ready for spatial indexing.
#[derive(Debug)]
pub struct PointFeature {
    pub bbox: Bbox,
    pub point: Vec<u64>,
    pub id: Option<geojson::feature::Id>,
    pub properties: Option<JsonObject>,
    pub foreign_members: Option<JsonObject>,
}

/// Building a point feature from `feature` succeeds with exactly `f`: the
/// record holds a valid point payload, `f` keeps it, the box is the supplied
/// one or the computed one, and the metadata is carried over unchanged.
pub open spec fn spec_build_ok(feature: FeatureRecord, f: PointFeature) -> bool {
    feature.geometry matches Some(RawValue::Point(p)) && valid_point(p@) && f.point == p && f.bbox
        == (if feature.bbox is Some {
        feature.bbox->0
    } else {
        bbox_value(RawValue::Point(p))
    }) && f.id == feature.id && f.properties == feature.properties && f.foreign_members
        == feature.foreign_members
}

/// Building a point feature from `feature` fails with exactly `e`: missing
/// geometry, a wrong kind tag, or a point payload breaking the arity rule.
pub open spec fn spec_build_err(feature: FeatureRecord, e: GeoJsonConversionError) -> bool {
    match feature.geometry {
        None => e == GeoJsonConversionError::MissingGeometry(feature.id),
        Some(g) => match g {
            RawValue::Point(p) => !valid_point(p@) && e
                == GeoJsonConversionError::MalformedGeometry(feature.id),
            _ => e matches GeoJsonConversionError::IncorrectGeometryValue(s) && s@
                == "Error: did not find Point feature"@,
        },
    }
}

impl PointFeature {
    /// The raw position this feature was built from.
    pub fn point(&self) -> (r: &Vec<u64>)
        ensures
            r == &self.point,
    {
        &self.point
    }

    /// The typed point this feature's position decodes to.
    pub fn geo_point(&self) -> (r: GeoPoint)
        requires
            self.point@.len() >= 2,
        ensures
            r.coord == spec_decode_coord(self.point@),
    {
        create_geo_point(&self.point)
    }

    /// This feature's bounding box.
    pub fn bbox(&self) -> (r: Bbox)
        ensures
            r == self.bbox,
    {
        self.bbox
    }

    /// The envelope handed to a spatial index: the bounding box.
    pub fn envelope(&self) -> (r: Bbox)
        ensures
            r == self.bbox,
    {
        self.bbox
    }

    /// Checks a point payload: exactly two components.
    pub fn check_geometry(geometry: &Vec<u64>) -> (r: bool)
        ensures
            r == valid_point(geometry@),
    {
        geometry.len() == 2
    }

    /// Computes the box of a valid point payload: the point itself as both
    /// corners.
    pub fn compute_bbox(geometry: &Vec<u64>) -> (r: Bbox)
        requires
            valid_point(geometry@),
        ensures
            r == bbox_value(RawValue::Point(*geometry)),
    {
        Bbox { min_x: geometry[0], min_y: geometry[1], max_x: geometry[0], max_y: geometry[1] }
    }

    /// Assembles the feature from its validated parts, carrying the
    /// identifier and both maps over from the record unchanged.
    pub fn create_self(
        bbox: Bbox,
        geometry: Vec<u64>,
        id: Option<geojson::feature::Id>,
        properties: Option<JsonObject>,
        foreign_members: Option<JsonObject>,
    ) -> (r: PointFeature)
        ensures
            r.bbox == bbox,
            r.point == geometry,
            r.id == id,
            r.properties == properties,
            r.foreign_members == foreign_members,
    {
        PointFeature { bbox, point: geometry, id, properties, foreign_members }
    }

    /// Builds a point feature from a raw record: extract the point payload,
    /// validate it, take the supplied bounding box or compute one, and
    /// assemble the feature.
    pub fn try_from(feature: FeatureRecord) -> (r: Result<
        PointFeature,
        GeoJsonConversionError,
    >)
        ensures
            match r {
                Ok(f) => spec_build_ok(feature, f),
                Err(e) => spec_build_err(feature, e),
            },
    {
        let FeatureRecord { bbox, geometry, id, properties, foreign_members } = feature;
        match geometry {
            None => Err(GeoJsonConversionError::MissingGeometry(id)),
            Some(RawValue::Point(point_type)) => {
                if !Self::check_geometry(&point_type) {
                    return Err(GeoJsonConversionError::MalformedGeometry(id));
                }
                let bb = match bbox {
                    Some(b) => b,
                    None => Self::compute_bbox(&point_type),
                };
                Ok(Self::create_self(bb, point_type, id, properties, foreign_members))
            },
            Some(_) => Err(
                GeoJsonConversionError::IncorrectGeometryValue(
                    "Error: did not find Point feature".to_owned(),
                ),
            ),
        }
    }

    /// Turns the feature back into a raw record, the exact inverse of
    /// building it: the payload, box, identifier and maps are all kept.
    pub fn into_record(self) -> (r: FeatureRecord)
        ensures
            r.geometry == Some(RawValue::Point(self.point)),
            r.bbox == Some(self.bbox),
            r.id == self.id,
            r.properties == self.properties,
            r.foreign_members == self.foreign_members,
    {
        FeatureRecord {
            bbox: Some(self.bbox),
            geometry: Some(RawValue::Point(self.point)),
            id: self.id,
            properties: self.properties,
            foreign_members: self.foreign_members,
        }
    }
}

} // verus!
