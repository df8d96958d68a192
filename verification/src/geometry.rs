//! The typed geometry values that the codec decodes raw payloads into:
//! coordinate pairs and the shapes built from them.
use vstd::prelude::*;

verus! {

/// A coordinate: a pair of components, each the bit pattern of a double.
#[derive(Debug, Clone, Copy, PartialEq, Eq, Structural)]
pub struct Coord {
    pub x: u64,
    pub y: u64,
}

/// A single typed point.
#[derive(Debug, Clone, Copy, PartialEq, Eq, Structural)]
pub struct GeoPoint {
    pub coord: Coord,
}

/// An ordered run of coordinates.
#[derive(Debug, PartialEq)]
pub struct GeoLineString {
    pub points: Vec<Coord>,
}

/// A list of typed points.
#[derive(Debug, PartialEq)]
pub struct GeoMultiPoint {
    pub points: Vec<GeoPoint>,
}

/// A list of typed line strings.
#[derive(Debug, PartialEq)]
pub struct GeoMultiLineString {
    pub lines: Vec<GeoLineString>,
}

/// A typed polygon: an exterior ring and any number of interior rings.
#[derive(Debug, PartialEq)]
pub struct GeoPolygon {
    pub exterior: GeoLineString,
    pub interiors: Vec<GeoLineString>,
}

/// A list of typed polygons.
#[derive(Debug, PartialEq)]
pub struct GeoMultiPolygon {
    pub polygons: Vec<GeoPolygon>,
}

/// A typed geometry of any kind, including a recursive collection.
#[derive(Debug, PartialEq)]
pub enum GeoGeometry {
    Point(GeoPoint),
    LineString(GeoLineString),
    Polygon(GeoPolygon),
    MultiPoint(GeoMultiPoint),
    MultiLineString(GeoMultiLineString),
    MultiPolygon(GeoMultiPolygon),
    GeometryCollection(Vec<GeoGeometry>),
}

} // verus!
