//! The opaque structured payload that requests and responses carry.

use vstd::prelude::*;

verus! {

/// Relies on `serde_json::Value`: an ordinary owned tree of JSON data. The
/// gateway never reads or edits such a value — it only carries one through —
/// so the type is declared opaque and nothing further is assumed of it.
#[verifier::external_type_specification]
#[verifier::external_body]
pub struct ExValue(serde_json::Value);

} // verus!
