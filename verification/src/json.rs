//! JSON values that the library carries through without reading them.

use vstd::prelude::*;

verus! {

/// A JSON value, held as it came and handed on unchanged.
#[verifier::external_type_specification]
#[verifier::external_body]
pub struct ExJsonValue(serde_json::Value);

/// `serde_json::Value::clone`, which `derive(Clone)` writes for the value
/// tree: the copy is the same JSON value as the original.
pub assume_specification[ <serde_json::Value as Clone>::clone ](v: &serde_json::Value) -> (res:
    serde_json::Value)
    ensures
        res == *v,
;

} // verus!
