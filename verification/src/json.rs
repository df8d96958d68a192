//! Declarations of the outside JSON types that a feature carries along
//! unchanged: the feature identifier and the JSON object maps for properties
//! and foreign members. The library never looks inside these values; it only
//! moves them from the raw record into the constructed feature.
use vstd::prelude::*;

verus! {

/// Declares geojson's feature identifier (a string or a JSON number) so that
/// it can be carried in fields and signatures. The library treats it as opaque.
#[verifier::external_type_specification]
#[verifier::external_body]
pub struct ExId(geojson::feature::Id);

/// Declares serde_json's JSON value type, used as the value type of the
/// property and foreign-member maps. The library treats it as opaque.
#[verifier::external_type_specification]
#[verifier::external_body]
pub struct ExJsonValue(serde_json::Value);

/// Declares serde_json's JSON object map. The library treats it as opaque.
#[verifier::external_type_specification]
#[verifier::external_body]
#[verifier::reject_recursive_types(K)]
#[verifier::reject_recursive_types(V)]
pub struct ExJsonMap<K, V>(serde_json::Map<K, V>);

/// A JSON object: what a feature's `properties` and `foreign_members` hold.
pub type JsonObject = serde_json::Map<String, serde_json::Value>;

} // verus!
