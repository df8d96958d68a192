//! `LineStringFeature`: a validated line-string geometry with its bounding
//! box and the metadata carried over from the raw record.
use vstd::prelude::*;

use crate::bbox::Bbox;
use crate::conversion::{create_geo_line_string, spec_decode_line};
use crate::error::GeoJsonConversionError;
use crate::float_bits::float_eq;
use crate::geometry::GeoLineString;
use crate::json::JsonObject;
use crate::raw::{
    bbox_value, degenerate_line, line_view, pos_coincident, valid_line_string, RawValue,
};
use crate::record::FeatureRecord;

verus! {

/// A feature whose geometry is a line string, ready for spatial indexing.
#[derive(Debug)]
pub struct LineStringFeature {
    pub bbox: Bbox,
    pub line: Vec<Vec<u64>>,
    pub id: Option<geojson::feature::Id>,
    pub properties: Option<JsonObject>,
    pub foreign_members: Option<JsonObject>,
}

/// Building a line-string feature from `feature` succeeds with exactly `f`.
pub open spec fn spec_build_ok(feature: FeatureRecord, f: LineStringFeature) -> bool {
    feature.geometry matches Some(RawValue::LineString(l)) && valid_line_string(line_view(l))
        && f.line == l && f.bbox == (if feature.bbox is Some {
        feature.bbox->0
    } else {
        bbox_value(RawValue::LineString(l))
    }) && f.id == feature.id && f.properties == feature.properties && f.foreign_members
        == feature.foreign_members
}

/// Building a line-string feature from `feature` fails with exactly `e`.
pub open spec fn spec_build_err(feature: FeatureRecord, e: GeoJsonConversionError) -> bool {
    match feature.geometry {
        None => e == GeoJsonConversionError::MissingGeometry(feature.id),
        Some(g) => match g {
            RawValue::LineString(l) => !valid_line_string(line_view(l)) && e
                == GeoJsonConversionError::MalformedGeometry(feature.id),
            _ => e matches GeoJsonConversionError::IncorrectGeometryValue(s) && s@
                == "Error: did not find Linestring feature"@,
        },
    }
}

impl LineStringFeature {
    /// The raw positions this feature was built from.
    pub fn line(&self) -> (r: &Vec<Vec<u64>>)
        ensures
            r == &self.line,
    {
        &self.line
    }

    /// The typed line string this feature's positions decode to.
    pub fn geo_line(&self) -> (r: GeoLineString)
        requires
            forall|i: int| 0 <= i < self.line@.len() ==> (#[trigger] self.line@[i]@).len() >= 2,
        ensures
            r.points@ == spec_decode_line(line_view(self.line)),
    {
        create_geo_line_string(&self.line)
    }

    /// This feature's bounding box.
    pub fn bbox(&self) -> (r: Bbox)
        ensures
            r == self.bbox,
    {
        self.bbox
    }

    /// The envelope handed to a spatial index: the bounding box.
    pub fn envelope(&self) -> (r: Bbox)
        ensures
            r == self.bbox,
    {
        self.bbox
    }

    /// Checks a line-string payload: every position has exactly two
    /// components, and the line's total length is not zero (some position
    /// differs from the next).
    pub fn check_geometry(geometry: &Vec<Vec<u64>>) -> (r: bool)
        ensures
            r == valid_line_string(line_view(*geometry)),
    {
        let ghost lv = line_view(*geometry);
        let mut i: usize = 0;
        while i < geometry.len()
            invariant
                0 <= i <= lv.len(),
                lv == line_view(*geometry),
                forall|k: int| 0 <= k < i ==> (#[trigger] lv[k]).len() == 2,
            decreases geometry@.len() - i,
        {
            if geometry[i].len() != 2 {
                proof {
                    assert(lv[i as int].len() != 2);
                    assert(!crate::raw::line_arity_ok(lv));
                }
                return false;
            }
            i = i + 1;
        }
        if geometry.len() < 2 {
            proof {
                assert(degenerate_line(lv));
            }
            return false;
        }
        let mut all_coincident = true;
        let mut j: usize = 0;
        while j < geometry.len() - 1
            invariant
                0 <= j <= lv.len() - 1,
                lv.len() >= 2,
                lv == line_view(*geometry),
                forall|k: int| 0 <= k < lv.len() ==> (#[trigger] lv[k]).len() == 2,
                all_coincident == (forall|k: int|
                    0 <= k < j ==> #[trigger] pos_coincident(lv[k], lv[k + 1])),
            decreases geometry@.len() - j,
        {
            proof {
                assert(lv[j as int].len() == 2);
                assert(lv[j as int + 1].len() == 2);
            }
            let p = &geometry[j];
            let q = &geometry[j + 1];
            let coincident = float_eq(p[0], q[0]) && float_eq(p[1], q[1]);
            proof {
                assert(coincident == pos_coincident(lv[j as int], lv[j as int + 1]));
            }
            if !coincident {
                all_coincident = false;
            }
            j = j + 1;
        }
        if all_coincident {
            proof {
                assert(degenerate_line(lv));
            }
            return false;
        }
        true
    }

    /// Computes the box of a valid line-string payload: the extremes of its
    /// positions.
    pub fn compute_bbox(geometry: &Vec<Vec<u64>>) -> (r: Bbox)
        requires
            valid_line_string(line_view(*geometry)),
        ensures
            r == bbox_value(RawValue::LineString(*geometry)),
    {
        proof {
            if line_view(*geometry).len() == 0 {
                assert(degenerate_line(line_view(*geometry)));
            }
            assert forall|i: int| 0 <= i < geometry@.len() implies (#[trigger] geometry@[i]@).len()
                >= 2 by {
                assert(line_view(*geometry)[i].len() == 2);
            }
        }
        crate::bbox::compute_positions_bbox(geometry)
    }

    /// Assembles the feature from its validated parts, carrying the
    /// identifier and both maps over from the record unchanged.
    pub fn create_self(
        bbox: Bbox,
        geometry: Vec<Vec<u64>>,
        id: Option<geojson::feature::Id>,
        properties: Option<JsonObject>,
        foreign_members: Option<JsonObject>,
    ) -> (r: LineStringFeature)
        ensures
            r.bbox == bbox,
            r.line == geometry,
            r.id == id,
            r.properties == properties,
            r.foreign_members == foreign_members,
    {
        LineStringFeature { bbox, line: geometry, id, properties, foreign_members }
    }

    /// Builds a line-string feature from a raw record: extract the payload,
    /// validate it, take the supplied bounding box or compute one, and
    /// assemble the feature.
    pub fn try_from(feature: FeatureRecord) -> (r: Result<
        LineStringFeature,
        GeoJsonConversionError,
    >)
        ensures
            match r {
                Ok(f) => spec_build_ok(feature, f),
                Err(e) => spec_build_err(feature, e),
            },
    {
        let FeatureRecord { bbox, geometry, id, properties, foreign_members } = feature;
        match geometry {
            None => Err(GeoJsonConversionError::MissingGeometry(id)),
            Some(RawValue::LineString(linestring_type)) => {
                if !Self::check_geometry(&linestring_type) {
                    return Err(GeoJsonConversionError::MalformedGeometry(id));
                }
                let bb = match bbox {
                    Some(b) => b,
                    None => Self::compute_bbox(&linestring_type),
                };
                Ok(Self::create_self(bb, linestring_type, id, properties, foreign_members))
            },
            Some(_) => Err(
                GeoJsonConversionError::IncorrectGeometryValue(
                    "Error: did not find Linestring feature".to_owned(),
                ),
            ),
        }
    }

    /// Turns the feature back into a raw record, the exact inverse of
    /// building it: the payload, box, identifier and maps are all kept.
    pub fn into_record(self) -> (r: FeatureRecord)
        ensures
            r.geometry == Some(RawValue::LineString(self.line)),
            r.bbox == Some(self.bbox),
            r.id == self.id,
            r.properties == self.properties,
            r.foreign_members == self.foreign_members,
    {
        FeatureRecord {
            bbox: Some(self.bbox),
            geometry: Some(RawValue::LineString(self.line)),
            id: self.id,
            properties: self.properties,
            foreign_members: self.foreign_members,
        }
    }
}

} // verus!
