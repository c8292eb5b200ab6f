//! The JSON value type, carried through the store as an opaque value.

use vstd::prelude::*;

verus! {

/// `serde_json::Value`: any JSON value. The store never looks inside one.
#[verifier::external_type_specification]
#[verifier::external_body]
pub struct ExValue(serde_json::Value);

/// `serde_json::Value::clone` (derived): the copy is the same JSON value.
pub assume_specification[ <serde_json::Value as Clone>::clone ](v: &serde_json::Value) -> (copy:
    serde_json::Value)
    ensures
        copy == *v,
;

} // verus!
