//! `MultiPolygonFeature`: a validated multi-polygon geometry with its
//! bounding box and the metadata carried over from the raw record.
use vstd::prelude::*;

use crate::bbox::Bbox;
use crate::conversion::{create_geo_multi_polygon, polygon_decodes};
use crate::error::GeoJsonConversionError;
use crate::geometry::GeoMultiPolygon;
use crate::json::JsonObject;
use crate::raw::{
    bbox_value, lemma_polygons_view_bounds, polygons_view, positions_ok, valid_multi_polygon,
    RawValue,
};
use crate::record::FeatureRecord;

verus! {

/// A feature whose geometry is a list of polygons, ready for spatial
/// indexing.
#[derive(Debug)]
pub struct MultiPolygonFeature {
    pub bbox: Bbox,
    pub polygons: Vec<Vec<Vec<Vec<u64>>>>,
    pub id: Option<geojson::feature::Id>,
    pub properties: Option<JsonObject>,
    pub foreign_members: Option<JsonObject>,
}

/// Building a multi-polygon feature from `feature` succeeds with exactly
/// `f`.
pub open spec fn spec_build_ok(feature: FeatureRecord, f: MultiPolygonFeature) -> bool {
    feature.geometry matches Some(RawValue::MultiPolygon(ms)) && valid_multi_polygon(
        polygons_view(ms),
    ) && f.polygons == ms && f.bbox == (if feature.bbox is Some {
        feature.bbox->0
    } else {
        bbox_value(RawValue::MultiPolygon(ms))
    }) && f.id == feature.id && f.properties == feature.properties && f.foreign_members
        == feature.foreign_members
}

/// Building a multi-polygon feature from `feature` fails with exactly `e`.
pub open spec fn spec_build_err(feature: FeatureRecord, e: GeoJsonConversionError) -> bool {
    match feature.geometry {
        None => e == GeoJsonConversionError::MissingGeometry(feature.id),
        Some(g) => match g {
            RawValue::MultiPolygon(ms) => !valid_multi_polygon(polygons_view(ms)) && e
                == GeoJsonConversionError::MalformedGeometry(feature.id),
            _ => e matches GeoJsonConversionError::IncorrectGeometryValue(s) && s@
                == "Error: did not find a MultiPolygon feature"@,
        },
    }
}

/// Building a multi-polygon feature cannot decode a position that is too
/// short: when the payload is valid and no box is supplied, computing one
/// reads the first two components of every position.
pub open spec fn spec_build_safe(feature: FeatureRecord) -> bool {
    feature.geometry matches Some(RawValue::MultiPolygon(ms)) ==> ((valid_multi_polygon(
        polygons_view(ms),
    ) && feature.bbox is None) ==> positions_ok(RawValue::MultiPolygon(ms)))
}

impl MultiPolygonFeature {
    /// The raw polygon list this feature was built from.
    pub fn polygons(&self) -> (r: &Vec<Vec<Vec<Vec<u64>>>>)
        ensures
            r == &self.polygons,
    {
        &self.polygons
    }

    /// The typed multi-polygon this feature's polygons decode to.
    pub fn geo_polygons(&self) -> (r: GeoMultiPolygon)
        requires
            forall|i: int, j: int, k: int|
                0 <= i < self.polygons@.len() && 0 <= j < self.polygons@[i]@.len() && 0 <= k
                    < self.polygons@[i]@[j]@.len() ==> (
                #[trigger] self.polygons@[i]@[j]@[k]@).len() >= 2,
        ensures
            r.polygons@.len() == self.polygons@.len(),
            forall|i: int|
                0 <= i < r.polygons@.len() ==> polygon_decodes(
                    polygons_view(self.polygons)[i],
                    #[trigger] r.polygons@[i],
                ),
    {
        create_geo_multi_polygon(&self.polygons)
    }

    /// This feature's bounding box.
    pub fn bbox(&self) -> (r: Bbox)
        ensures
            r == self.bbox,
    {
        self.bbox
    }

    /// The envelope handed to a spatial index: the bounding box.
    pub fn envelope(&self) -> (r: Bbox)
        ensures
            r == self.bbox,
    {
        self.bbox
    }

    /// Checks a multi-polygon payload: a non-empty polygon list in which
    /// every polygon and every ring is non-empty.
    pub fn check_geometry(geometry: &Vec<Vec<Vec<Vec<u64>>>>) -> (r: bool)
        ensures
            r == valid_multi_polygon(polygons_view(*geometry)),
    {
        proof {
            lemma_polygons_view_bounds(*geometry);
        }
        let ghost pv = polygons_view(*geometry);
        if geometry.len() == 0 {
            return false;
        }
        let mut i: usize = 0;
        while i < geometry.len()
            invariant
                0 <= i <= geometry@.len(),
                geometry@.len() > 0,
                pv == polygons_view(*geometry),
                forall|k: int| 0 <= k < i ==> (#[trigger] pv[k]).len() > 0,
                forall|k: int, j: int|
                    0 <= k < i && 0 <= j < pv[k].len() ==> (#[trigger] pv[k][j]).len() > 0,
            decreases geometry@.len() - i,
        {
            let polygon = &geometry[i];
            if polygon.len() == 0 {
                proof {
                    assert(pv[i as int].len() == 0);
                }
                return false;
            }
            let mut j: usize = 0;
            while j < polygon.len()
                invariant
                    0 <= j <= polygon@.len(),
                    0 <= i < geometry@.len(),
                    polygon == &geometry@[i as int],
                    pv == polygons_view(*geometry),
                    forall|jj: int| 0 <= jj < j ==> (#[trigger] pv[i as int][jj]).len() > 0,
                decreases polygon@.len() - j,
            {
                if polygon[j].len() == 0 {
                    proof {
                        assert(pv[i as int][j as int].len() == 0);
                    }
                    return false;
                }
                j = j + 1;
            }
            i = i + 1;
        }
        true
    }

    /// Computes the box of a valid multi-polygon payload whose positions are
    /// long enough to decode: the union of its polygons' boxes.
    pub fn compute_bbox(geometry: &Vec<Vec<Vec<Vec<u64>>>>) -> (r: Bbox)
        requires
            valid_multi_polygon(polygons_view(*geometry)),
            positions_ok(RawValue::MultiPolygon(*geometry)),
        ensures
            r == bbox_value(RawValue::MultiPolygon(*geometry)),
    {
        proof {
            lemma_polygons_view_bounds(*geometry);
        }
        crate::raw::compute_polygons_bbox(geometry)
    }

    /// Assembles the feature from its validated parts, carrying the
    /// identifier and both maps over from the record unchanged.
    pub fn create_self(
        bbox: Bbox,
        geometry: Vec<Vec<Vec<Vec<u64>>>>,
        id: Option<geojson::feature::Id>,
        properties: Option<JsonObject>,
        foreign_members: Option<JsonObject>,
    ) -> (r: MultiPolygonFeature)
        ensures
            r.bbox == bbox,
            r.polygons == geometry,
            r.id == id,
            r.properties == properties,
            r.foreign_members == foreign_members,
    {
        MultiPolygonFeature { bbox, polygons: geometry, id, properties, foreign_members }
    }

    /// Builds a multi-polygon feature from a raw record: extract the
    /// payload, validate it, take the supplied bounding box or compute one,
    /// and assemble the feature.
    pub fn try_from(feature: FeatureRecord) -> (r: Result<
        MultiPolygonFeature,
        GeoJsonConversionError,
    >)
        requires
            spec_build_safe(feature),
        ensures
            match r {
                Ok(f) => spec_build_ok(feature, f),
                Err(e) => spec_build_err(feature, e),
            },
    {
        let FeatureRecord { bbox, geometry, id, properties, foreign_members } = feature;
        match geometry {
            None => Err(GeoJsonConversionError::MissingGeometry(id)),
            Some(RawValue::MultiPolygon(polygons)) => {
                if !Self::check_geometry(&polygons) {
                    return Err(GeoJsonConversionError::MalformedGeometry(id));
                }
                let bb = match bbox {
                    Some(b) => b,
                    None => Self::compute_bbox(&polygons),
                };
                Ok(Self::create_self(bb, polygons, id, properties, foreign_members))
            },
            Some(_) => Err(
                GeoJsonConversionError::IncorrectGeometryValue(
                    "Error: did not find a MultiPolygon feature".to_owned(),
                ),
            ),
        }
    }

    /// Turns the feature back into a raw record, the exact inverse of
    /// building it: the payload, box, identifier and maps are all kept.
    pub fn into_record(self) -> (r: FeatureRecord)
        ensures
            r.geometry == Some(RawValue::MultiPolygon(self.polygons)),
            r.bbox == Some(self.bbox),
            r.id == self.id,
            r.properties == self.properties,
            r.foreign_members == self.foreign_members,
    {
        FeatureRecord {
            bbox: Some(self.bbox),
            geometry: Some(RawValue::MultiPolygon(self.polygons)),
            id: self.id,
            properties: self.properties,
            foreign_members: self.foreign_members,
        }
    }
}

} // verus!
