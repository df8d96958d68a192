//! `PolygonFeature`: a validated polygon geometry with its bounding box and
//! the metadata carried over from the raw record.
use vstd::prelude::*;

use crate::bbox::Bbox;
use crate::conversion::{create_geo_polygon, polygon_decodes};
use crate::error::GeoJsonConversionError;
use crate::geometry::GeoPolygon;
use crate::json::JsonObject;
use crate::raw::{
    bbox_value, lemma_nested_view_bounds, rings_view, valid_polygon, RawValue,
};
use crate::record::FeatureRecord;

verus! {

/// A feature whose geometry is a polygon, ready for spatial indexing.
#[derive(Debug)]
pub struct PolygonFeature {
    pub bbox: Bbox,
    pub polygon: Vec<Vec<Vec<u64>>>,
    pub id: Option<geojson::feature::Id>,
    pub properties: Option<JsonObject>,
    pub foreign_members: Option<JsonObject>,
}

/// Building a polygon feature from `feature` succeeds with exactly `f`.
pub open spec fn spec_build_ok(feature: FeatureRecord, f: PolygonFeature) -> bool {
    feature.geometry matches Some(RawValue::Polygon(rs)) && valid_polygon(rings_view(rs))
        && f.polygon == rs && f.bbox == (if feature.bbox is Some {
        feature.bbox->0
    } else {
        bbox_value(RawValue::Polygon(rs))
    }) && f.id == feature.id && f.properties == feature.properties && f.foreign_members
        == feature.foreign_members
}

/// Building a polygon feature from `feature` fails with exactly `e`.
pub open spec fn spec_build_err(feature: FeatureRecord, e: GeoJsonConversionError) -> bool {
    match feature.geometry {
        None => e == GeoJsonConversionError::MissingGeometry(feature.id),
        Some(g) => match g {
            RawValue::Polygon(rs) => !valid_polygon(rings_view(rs)) && e
                == GeoJsonConversionError::MalformedGeometry(feature.id),
            _ => e matches GeoJsonConversionError::IncorrectGeometryValue(s) && s@
                == "Error: did not find Polygon feature"@,
        },
    }
}

impl PolygonFeature {
    /// The raw ring list this feature was built from.
    pub fn polygon(&self) -> (r: &Vec<Vec<Vec<u64>>>)
        ensures
            r == &self.polygon,
    {
        &self.polygon
    }

    /// The typed polygon this feature's ring list decodes to.
    pub fn geo_polygon(&self) -> (r: GeoPolygon)
        requires
            forall|i: int, j: int|
                0 <= i < self.polygon@.len() && 0 <= j < self.polygon@[i]@.len() ==> (
                #[trigger] self.polygon@[i]@[j]@).len() >= 2,
        ensures
            polygon_decodes(rings_view(self.polygon), r),
    {
        create_geo_polygon(&self.polygon)
    }

    /// This feature's bounding box.
    pub fn bbox(&self) -> (r: Bbox)
        ensures
            r == self.bbox,
    {
        self.bbox
    }

    /// The envelope handed to a spatial index: the bounding box.
    pub fn envelope(&self) -> (r: Bbox)
        ensures
            r == self.bbox,
    {
        self.bbox
    }

    /// Checks a polygon payload: a non-empty ring list, every ring
    /// non-empty, and every position with exactly two components.
    pub fn check_geometry(geometry: &Vec<Vec<Vec<u64>>>) -> (r: bool)
        ensures
            r == valid_polygon(rings_view(*geometry)),
    {
        proof {
            lemma_nested_view_bounds(*geometry);
        }
        let ghost rv = rings_view(*geometry);
        let mut i: usize = 0;
        while i < geometry.len()
            invariant
                0 <= i <= geometry@.len(),
                rv == rings_view(*geometry),
                forall|k: int, j: int|
                    0 <= k < i && 0 <= j < rv[k].len() ==> (#[trigger] rv[k][j]).len() == 2,
            decreases geometry@.len() - i,
        {
            let ring = &geometry[i];
            let mut j: usize = 0;
            while j < ring.len()
                invariant
                    0 <= j <= ring@.len(),
                    0 <= i < geometry@.len(),
                    ring == &geometry@[i as int],
                    rv == rings_view(*geometry),
                    forall|jj: int| 0 <= jj < j ==> (#[trigger] rv[i as int][jj]).len() == 2,
                decreases ring@.len() - j,
            {
                if ring[j].len() != 2 {
                    proof {
                        assert(rv[i as int][j as int].len() != 2);
                    }
                    return false;
                }
                j = j + 1;
            }
            i = i + 1;
        }
        if geometry.len() == 0 {
            return false;
        }
        let mut k: usize = 0;
        while k < geometry.len()
            invariant
                0 <= k <= geometry@.len(),
                geometry@.len() > 0,
                rv == rings_view(*geometry),
                forall|kk: int, j: int|
                    0 <= kk < rv.len() && 0 <= j < rv[kk].len() ==> (#[trigger] rv[kk][j]).len()
                        == 2,
                forall|kk: int| 0 <= kk < k ==> (#[trigger] rv[kk]).len() > 0,
            decreases geometry@.len() - k,
        {
            if geometry[k].len() == 0 {
                proof {
                    assert(rv[k as int].len() == 0);
                }
                return false;
            }
            k = k + 1;
        }
        true
    }

    /// Computes the box of a valid polygon payload: the union of its rings'
    /// boxes, interiors included.
    pub fn compute_bbox(geometry: &Vec<Vec<Vec<u64>>>) -> (r: Bbox)
        requires
            valid_polygon(rings_view(*geometry)),
        ensures
            r == bbox_value(RawValue::Polygon(*geometry)),
    {
        proof {
            lemma_nested_view_bounds(*geometry);
        }
        crate::raw::compute_rings_bbox(geometry)
    }

    /// Assembles the feature from its validated parts, carrying the
    /// identifier and both maps over from the record unchanged.
    pub fn create_self(
        bbox: Bbox,
        geometry: Vec<Vec<Vec<u64>>>,
        id: Option<geojson::feature::Id>,
        properties: Option<JsonObject>,
        foreign_members: Option<JsonObject>,
    ) -> (r: PolygonFeature)
        ensures
            r.bbox == bbox,
            r.polygon == geometry,
            r.id == id,
            r.properties == properties,
            r.foreign_members == foreign_members,
    {
        PolygonFeature { bbox, polygon: geometry, id, properties, foreign_members }
    }

    /// Builds a polygon feature from a raw record: extract the ring list,
    /// validate it, take the supplied bounding box or compute one, and
    /// assemble the feature.
    pub fn try_from(feature: FeatureRecord) -> (r: Result<
        PolygonFeature,
        GeoJsonConversionError,
    >)
        ensures
            match r {
                Ok(f) => spec_build_ok(feature, f),
                Err(e) => spec_build_err(feature, e),
            },
    {
        let FeatureRecord { bbox, geometry, id, properties, foreign_members } = feature;
        match geometry {
            None => Err(GeoJsonConversionError::MissingGeometry(id)),
            Some(RawValue::Polygon(polygon_type)) => {
                if !Self::check_geometry(&polygon_type) {
                    return Err(GeoJsonConversionError::MalformedGeometry(id));
                }
                let bb = match bbox {
                    Some(b) => b,
                    None => Self::compute_bbox(&polygon_type),
                };
                Ok(Self::create_self(bb, polygon_type, id, properties, foreign_members))
            },
            Some(_) => Err(
                GeoJsonConversionError::IncorrectGeometryValue(
                    "Error: did not find Polygon feature".to_owned(),
                ),
            ),
        }
    }

    /// Turns the feature back into a raw record, the exact inverse of
    /// building it: the payload, box, identifier and maps are all kept.
    pub fn into_record(self) -> (r: FeatureRecord)
        ensures
            r.geometry == Some(RawValue::Polygon(self.polygon)),
            r.bbox == Some(self.bbox),
            r.id == self.id,
            r.properties == self.properties,
            r.foreign_members == self.foreign_members,
    {
        FeatureRecord {
            bbox: Some(self.bbox),
            geometry: Some(RawValue::Polygon(self.polygon)),
            id: self.id,
            properties: self.properties,
            foreign_members: self.foreign_members,
        }
    }
}

} // verus!
