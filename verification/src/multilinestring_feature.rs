//! `MultiLineStringFeature`: a validated multi-line-string geometry with its
//! bounding box and the metadata carried over from the raw record.
use vstd::prelude::*;

use crate::bbox::Bbox;
use crate::conversion::{create_geo_multi_line_string, spec_decode_line};
use crate::error::GeoJsonConversionError;
use crate::geometry::GeoMultiLineString;
use crate::json::JsonObject;
use crate::raw::{
    bbox_value, lemma_nested_view_bounds, positions_ok, rings_view, valid_multi_line_string,
    RawValue,
};
use crate::record::FeatureRecord;

verus! {

/// A feature whose geometry is a list of line strings, ready for spatial
/// indexing.
#[derive(Debug)]
pub struct MultiLineStringFeature {
    pub bbox: Bbox,
    pub lines: Vec<Vec<Vec<u64>>>,
    pub id: Option<geojson::feature::Id>,
    pub properties: Option<JsonObject>,
    pub foreign_members: Option<JsonObject>,
}

/// Building a multi-line-string feature from `feature` succeeds with exactly
/// `f`.
pub open spec fn spec_build_ok(feature: FeatureRecord, f: MultiLineStringFeature) -> bool {
    feature.geometry matches Some(RawValue::MultiLineString(ls)) && valid_multi_line_string(
        rings_view(ls),
    ) && f.lines == ls && f.bbox == (if feature.bbox is Some {
        feature.bbox->0
    } else {
        bbox_value(RawValue::MultiLineString(ls))
    }) && f.id == feature.id && f.properties == feature.properties && f.foreign_members
        == feature.foreign_members
}

/// Building a multi-line-string feature from `feature` fails with exactly
/// `e`.
pub open spec fn spec_build_err(feature: FeatureRecord, e: GeoJsonConversionError) -> bool {
    match feature.geometry {
        None => e == GeoJsonConversionError::MissingGeometry(feature.id),
        Some(g) => match g {
            RawValue::MultiLineString(ls) => !valid_multi_line_string(rings_view(ls)) && e
                == GeoJsonConversionError::MalformedGeometry(feature.id),
            _ => e matches GeoJsonConversionError::IncorrectGeometryValue(s) && s@
                == "Error: did not find a MultiLinestring Feature"@,
        },
    }
}

/// Building a multi-line-string feature cannot decode a position that is too
/// short: when the payload is valid and no box is supplied, computing one
/// reads the first two components of every position.
pub open spec fn spec_build_safe(feature: FeatureRecord) -> bool {
    feature.geometry matches Some(RawValue::MultiLineString(ls)) ==> ((valid_multi_line_string(
        rings_view(ls),
    ) && feature.bbox is None) ==> positions_ok(RawValue::MultiLineString(ls)))
}

impl MultiLineStringFeature {
    /// The raw line list this feature was built from.
    pub fn lines(&self) -> (r: &Vec<Vec<Vec<u64>>>)
        ensures
            r == &self.lines,
    {
        &self.lines
    }

    /// The typed multi-line-string this feature's lines decode to.
    pub fn geo_lines(&self) -> (r: GeoMultiLineString)
        requires
            forall|i: int, j: int|
                0 <= i < self.lines@.len() && 0 <= j < self.lines@[i]@.len() ==> (
                #[trigger] self.lines@[i]@[j]@).len() >= 2,
        ensures
            r.lines@.len() == self.lines@.len(),
            forall|i: int|
                0 <= i < r.lines@.len() ==> (#[trigger] r.lines@[i]).points@ == spec_decode_line(
                    rings_view(self.lines)[i],
                ),
    {
        create_geo_multi_line_string(&self.lines)
    }

    /// This feature's bounding box.
    pub fn bbox(&self) -> (r: Bbox)
        ensures
            r == self.bbox,
    {
        self.bbox
    }

    /// The envelope handed to a spatial index: the bounding box.
    pub fn envelope(&self) -> (r: Bbox)
        ensures
            r == self.bbox,
    {
        self.bbox
    }

    /// Checks a multi-line-string payload: a non-empty line list in which
    /// every line is non-empty.
    pub fn check_geometry(geometry: &Vec<Vec<Vec<u64>>>) -> (r: bool)
        ensures
            r == valid_multi_line_string(rings_view(*geometry)),
    {
        proof {
            lemma_nested_view_bounds(*geometry);
        }
        let ghost rv = rings_view(*geometry);
        if geometry.len() == 0 {
            return false;
        }
        let mut i: usize = 0;
        while i < geometry.len()
            invariant
                0 <= i <= geometry@.len(),
                geometry@.len() > 0,
                rv == rings_view(*geometry),
                forall|k: int| 0 <= k < i ==> (#[trigger] rv[k]).len() > 0,
            decreases geometry@.len() - i,
        {
            if geometry[i].len() == 0 {
                proof {
                    assert(rv[i as int].len() == 0);
                }
                return false;
            }
            i = i + 1;
        }
        true
    }

    /// Computes the box of a valid multi-line-string payload whose positions
    /// are long enough to decode: the union of its lines' boxes.
    pub fn compute_bbox(geometry: &Vec<Vec<Vec<u64>>>) -> (r: Bbox)
        requires
            valid_multi_line_string(rings_view(*geometry)),
            positions_ok(RawValue::MultiLineString(*geometry)),
        ensures
            r == bbox_value(RawValue::MultiLineString(*geometry)),
    {
        proof {
            lemma_nested_view_bounds(*geometry);
        }
        crate::raw::compute_rings_bbox(geometry)
    }

    /// Assembles the feature from its validated parts, carrying the
    /// identifier and both maps over from the record unchanged.
    pub fn create_self(
        bbox: Bbox,
        geometry: Vec<Vec<Vec<u64>>>,
        id: Option<geojson::feature::Id>,
        properties: Option<JsonObject>,
        foreign_members: Option<JsonObject>,
    ) -> (r: MultiLineStringFeature)
        ensures
            r.bbox == bbox,
            r.lines == geometry,
            r.id == id,
            r.properties == properties,
            r.foreign_members == foreign_members,
    {
        MultiLineStringFeature { bbox, lines: geometry, id, properties, foreign_members }
    }

    /// Builds a multi-line-string feature from a raw record: extract the
    /// payload, validate it, take the supplied bounding box or compute one,
    /// and assemble the feature.
    pub fn try_from(feature: FeatureRecord) -> (r: Result<
        MultiLineStringFeature,
        GeoJsonConversionError,
    >)
        requires
            spec_build_safe(feature),
        ensures
            match r {
                Ok(f) => spec_build_ok(feature, f),
                Err(e) => spec_build_err(feature, e),
            },
    {
        let FeatureRecord { bbox, geometry, id, properties, foreign_members } = feature;
        match geometry {
            None => Err(GeoJsonConversionError::MissingGeometry(id)),
            Some(RawValue::MultiLineString(lines)) => {
                if !Self::check_geometry(&lines) {
                    return Err(GeoJsonConversionError::MalformedGeometry(id));
                }
                let bb = match bbox {
                    Some(b) => b,
                    None => Self::compute_bbox(&lines),
                };
                Ok(Self::create_self(bb, lines, id, properties, foreign_members))
            },
            Some(_) => Err(
                GeoJsonConversionError::IncorrectGeometryValue(
                    "Error: did not find a MultiLinestring Feature".to_owned(),
                ),
            ),
        }
    }

    /// Turns the feature back into a raw record, the exact inverse of
    /// building it: the payload, box, identifier and maps are all kept.
    pub fn into_record(self) -> (r: FeatureRecord)
        ensures
            r.geometry == Some(RawValue::MultiLineString(self.lines)),
            r.bbox == Some(self.bbox),
            r.id == self.id,
            r.properties == self.properties,
            r.foreign_members == self.foreign_members,
    {
        FeatureRecord {
            bbox: Some(self.bbox),
            geometry: Some(RawValue::MultiLineString(self.lines)),
            id: self.id,
            properties: self.properties,
            foreign_members: self.foreign_members,
        }
    }
}

} // verus!
