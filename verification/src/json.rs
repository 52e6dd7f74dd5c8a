//! The JSON values of `serde_json` that the collection carries through
//! without reading them.
use vstd::prelude::*;

verus! {

/// `serde_json::Map`, the object that holds a collection's or a record's metadata.
#[verifier::external_type_specification]
#[verifier::external_body]
#[verifier::reject_recursive_types(K)]
#[verifier::reject_recursive_types(V)]
pub struct ExJsonObject<K, V>(serde_json::Map<K, V>);

/// `serde_json::Value`, any JSON value (a metadata entry or a filter).
#[verifier::external_type_specification]
#[verifier::external_body]
pub struct ExJsonValue(serde_json::Value);

/// Metadata: a JSON object whose keys are strings.
pub type Metadata = serde_json::Map<String, serde_json::Value>;

} // verus!
