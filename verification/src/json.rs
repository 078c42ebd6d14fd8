//! Declaration of the JSON library's value type, so that it can stand in
//! signatures. The type is opaque: nothing is assumed of what a value of
//! it holds.

use vstd::prelude::*;

verus! {

#[verifier::external_type_specification]
#[verifier::external_body]
pub struct ExJsonValue(serde_json::Value);

} // verus!
