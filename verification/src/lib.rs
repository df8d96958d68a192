//! Conversion of loosely-typed geographic feature records into validated,
//! typed features that a spatial index can hold: per-kind payload
//! extraction, structural validation, bounding-box computation, and
//! assembly, with the record's metadata carried along unchanged.
//!
//! Coordinates are carried as the bit patterns of double-precision numbers;
//! comparisons on them follow the order defined in `float_bits`.
use vstd::prelude::*;

pub mod bbox;
pub mod conversion;
pub mod error;
pub mod float_bits;
pub mod geometry;
pub mod geometry_collection;
pub mod json;
pub mod linestring_feature;
pub mod multilinestring_feature;
pub mod multipoint_feature;
pub mod multipolygon_feature;
pub mod point_feature;
pub mod polygon_feature;
pub mod raw;
pub mod record;

pub use error::GeoJsonConversionError;
pub use linestring_feature::LineStringFeature;
pub use multilinestring_feature::MultiLineStringFeature;
pub use multipoint_feature::MultiPointFeature;
pub use multipolygon_feature::MultiPolygonFeature;
pub use point_feature::PointFeature;
pub use polygon_feature::PolygonFeature;

use crate::bbox::Bbox;
use crate::geometry_collection::GeometryCollectionFeature;
use crate::raw::RawValue;
use crate::record::FeatureRecord;

verus! {

/// A typed feature of any geometry kind, including a recursive collection.
#[derive(Debug)]
pub enum Feature {
    Point(PointFeature),
    Polygon(PolygonFeature),
    LineString(LineStringFeature),
    MultiPoint(MultiPointFeature),
    MultiLineString(MultiLineStringFeature),
    MultiPolygon(MultiPolygonFeature),
    GeometryCollection(GeometryCollectionFeature),
}

/// The bounding box a feature exposes to a spatial index.
pub open spec fn spec_envelope(f: Feature) -> Bbox {
    match f {
        Feature::Point(p) => p.bbox,
        Feature::Polygon(p) => p.bbox,
        Feature::LineString(l) => l.bbox,
        Feature::MultiPoint(p) => p.bbox,
        Feature::MultiLineString(l) => l.bbox,
        Feature::MultiPolygon(p) => p.bbox,
        Feature::GeometryCollection(c) => c.bbox,
    }
}

/// Building a typed feature from `feature` forces no position that is too
/// short to decode to be read: where the payload's own rules do not pin the
/// arity of positions, a box must be supplied or every position must be
/// decodable, since a missing box is computed from the coordinates.
pub open spec fn spec_build_safe(feature: FeatureRecord) -> bool {
    &&& crate::multilinestring_feature::spec_build_safe(feature)
    &&& crate::multipolygon_feature::spec_build_safe(feature)
    &&& crate::geometry_collection::spec_build_safe(feature)
}

impl Feature {
    /// The envelope handed to a spatial index: the feature's bounding box.
    pub fn envelope(&self) -> (r: Bbox)
        ensures
            r == spec_envelope(*self),
    {
        match self {
            Feature::Point(point) => point.envelope(),
            Feature::Polygon(polygon) => polygon.envelope(),
            Feature::LineString(line) => line.envelope(),
            Feature::MultiPoint(mpoint) => mpoint.envelope(),
            Feature::MultiLineString(mline) => mline.envelope(),
            Feature::MultiPolygon(mpolygon) => mpolygon.envelope(),
            Feature::GeometryCollection(collection) => collection.envelope(),
        }
    }

    /// Builds the typed feature matching the record's geometry kind,
    /// dispatching to that kind's builder; a record without geometry fails
    /// with `MissingGeometry`.
    pub fn try_from(feature: FeatureRecord) -> (r: Result<Feature, GeoJsonConversionError>)
        requires
            spec_build_safe(feature),
        ensures
            match r {
                Ok(f) => match f {
                    Feature::Point(pf) => crate::point_feature::spec_build_ok(feature, pf),
                    Feature::Polygon(pf) => crate::polygon_feature::spec_build_ok(feature, pf),
                    Feature::LineString(lf) => crate::linestring_feature::spec_build_ok(
                        feature,
                        lf,
                    ),
                    Feature::MultiPoint(mf) => crate::multipoint_feature::spec_build_ok(
                        feature,
                        mf,
                    ),
                    Feature::MultiLineString(mf) => crate::multilinestring_feature::spec_build_ok(
                        feature,
                        mf,
                    ),
                    Feature::MultiPolygon(mf) => crate::multipolygon_feature::spec_build_ok(
                        feature,
                        mf,
                    ),
                    Feature::GeometryCollection(cf) => crate::geometry_collection::spec_build_ok(
                        feature,
                        cf,
                    ),
                },
                Err(e) => match feature.geometry {
                    None => e == GeoJsonConversionError::MissingGeometry(feature.id),
                    Some(g) => match g {
                        RawValue::Point(_) => crate::point_feature::spec_build_err(feature, e),
                        RawValue::LineString(_) => crate::linestring_feature::spec_build_err(
                            feature,
                            e,
                        ),
                        RawValue::Polygon(_) => crate::polygon_feature::spec_build_err(feature, e),
                        RawValue::MultiPoint(_) => crate::multipoint_feature::spec_build_err(
                            feature,
                            e,
                        ),
                        RawValue::MultiLineString(
                            _,
                        ) => crate::multilinestring_feature::spec_build_err(feature, e),
                        RawValue::MultiPolygon(_) => crate::multipolygon_feature::spec_build_err(
                            feature,
                            e,
                        ),
                        RawValue::GeometryCollection(
                            _,
                        ) => crate::geometry_collection::spec_build_err(feature, e),
                    },
                },
            },
    {
        match &feature.geometry {
            Some(RawValue::Point(_)) => match PointFeature::try_from(feature) {
                Ok(f) => Ok(Feature::Point(f)),
                Err(e) => Err(e),
            },
            Some(RawValue::LineString(_)) => match LineStringFeature::try_from(feature) {
                Ok(f) => Ok(Feature::LineString(f)),
                Err(e) => Err(e),
            },
            Some(RawValue::Polygon(_)) => match PolygonFeature::try_from(feature) {
                Ok(f) => Ok(Feature::Polygon(f)),
                Err(e) => Err(e),
            },
            Some(RawValue::MultiPoint(_)) => match MultiPointFeature::try_from(feature) {
                Ok(f) => Ok(Feature::MultiPoint(f)),
                Err(e) => Err(e),
            },
            Some(RawValue::MultiLineString(_)) => match MultiLineStringFeature::try_from(
                feature,
            ) {
                Ok(f) => Ok(Feature::MultiLineString(f)),
                Err(e) => Err(e),
            },
            Some(RawValue::MultiPolygon(_)) => match MultiPolygonFeature::try_from(feature) {
                Ok(f) => Ok(Feature::MultiPolygon(f)),
                Err(e) => Err(e),
            },
            Some(RawValue::GeometryCollection(_)) => match GeometryCollectionFeature::try_from(
                feature,
            ) {
                Ok(f) => Ok(Feature::GeometryCollection(f)),
                Err(e) => Err(e),
            },
            None => Err(GeoJsonConversionError::MissingGeometry(feature.id)),
        }
    }

    /// Turns the feature back into a raw record, whatever its kind.
    pub fn into_record(self) -> (r: FeatureRecord)
        ensures
            match self {
                Feature::Point(p) => r.geometry == Some(RawValue::Point(p.point)) && r.bbox
                    == Some(p.bbox) && r.id == p.id && r.properties == p.properties
                    && r.foreign_members == p.foreign_members,
                Feature::Polygon(p) => r.geometry == Some(RawValue::Polygon(p.polygon)) && r.bbox
                    == Some(p.bbox) && r.id == p.id && r.properties == p.properties
                    && r.foreign_members == p.foreign_members,
                Feature::LineString(l) => r.geometry == Some(RawValue::LineString(l.line))
                    && r.bbox == Some(l.bbox) && r.id == l.id && r.properties == l.properties
                    && r.foreign_members == l.foreign_members,
                Feature::MultiPoint(p) => r.geometry == Some(RawValue::MultiPoint(p.points))
                    && r.bbox == Some(p.bbox) && r.id == p.id && r.properties == p.properties
                    && r.foreign_members == p.foreign_members,
                Feature::MultiLineString(l) => r.geometry == Some(
                    RawValue::MultiLineString(l.lines),
                ) && r.bbox == Some(l.bbox) && r.id == l.id && r.properties == l.properties
                    && r.foreign_members == l.foreign_members,
                Feature::MultiPolygon(p) => r.geometry == Some(
                    RawValue::MultiPolygon(p.polygons),
                ) && r.bbox == Some(p.bbox) && r.id == p.id && r.properties == p.properties
                    && r.foreign_members == p.foreign_members,
                Feature::GeometryCollection(c) => r.geometry == Some(
                    RawValue::GeometryCollection(c.geometries),
                ) && r.bbox == Some(c.bbox) && r.id == c.id && r.properties == c.properties
                    && r.foreign_members == c.foreign_members,
            },
    {
        match self {
            Feature::Point(p) => p.into_record(),
            Feature::LineString(l) => l.into_record(),
            Feature::Polygon(p) => p.into_record(),
            Feature::MultiPoint(p) => p.into_record(),
            Feature::MultiLineString(l) => l.into_record(),
            Feature::MultiPolygon(p) => p.into_record(),
            Feature::GeometryCollection(c) => c.into_record(),
        }
    }
}

} // verus!
