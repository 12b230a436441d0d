//! What the library takes from outside crates, and the terms on which it
//! relies on them.
use vstd::prelude::*;

verus! {

/// `serde_json::Value`: a plugin setting's structured value, which the
/// library stores and hands back without looking inside.
#[verifier::external_type_specification]
#[verifier::external_body]
pub struct ExJsonValue(serde_json::Value);

} // verus!
