//! The raw feature record: what an external parser hands this library.
use vstd::prelude::*;

use crate::bbox::Bbox;
use crate::json::JsonObject;
use crate::raw::RawValue;

verus! {

/// A loosely-typed feature record, as an external parser produces it: an
/// optional geometry payload, an optional bounding box trusted as-is, an
/// optional identifier, and the property and foreign-member maps carried
/// along unchanged.
#[derive(Debug)]
pub struct FeatureRecord {
    pub bbox: Option<Bbox>,
    pub geometry: Option<RawValue>,
    pub id: Option<geojson::feature::Id>,
    pub properties: Option<JsonObject>,
    pub foreign_members: Option<JsonObject>,
}

} // verus!
