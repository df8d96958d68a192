//! Errors that can result from converting a raw feature record into one of
//! the typed, index-ready feature structs.
use vstd::prelude::*;

verus! {

/// An error from a failed conversion of a raw feature record into a
/// `PointFeature`, `LineStringFeature`, `PolygonFeature`, etc.
///
/// The offending feature's identifier, when the record carries one, is
/// attached to the error.
#[derive(Debug)]
pub enum GeoJsonConversionError {
    /// The geometry is missing, so no conversion can be made.
    MissingGeometry(Option<geojson::feature::Id>),
    /// The geometry's kind tag is wrong for the requested feature type.
    IncorrectGeometryValue(String),
    /// The geometry has the right kind tag but breaks a structural rule,
    /// such as a point with a third coordinate component.
    MalformedGeometry(Option<geojson::feature::Id>),
}

} // verus!
