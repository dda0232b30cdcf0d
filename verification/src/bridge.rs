//! The bridge-facing side of the gateway: what a bridge call comes back with.

use vstd::prelude::*;

verus! {

/// The cause of a failed bridge call, as the text the bridge reported. The
/// gateway has exactly one error kind — "the bridge call failed" — whatever
/// went wrong downstream (invalid input, internal fault, timeout,
/// cancellation): all of them arrive here and are surfaced alike.
pub struct BridgeError {
    pub message: String,
}

/// What one bridge call returned: its structured result, or the cause of its
/// failure.
pub enum BridgeOutcome {
    Success(serde_json::Value),
    Failure(BridgeError),
}

/// The string shown to the caller for a failure: the cause's own text,
/// rendered as-is rather than replaced by a generic placeholder.
pub open spec fn rendered_cause(e: BridgeError) -> Seq<char> {
    e.message@
}

/// The rendering of a failure is derived from its cause alone: two failures
/// that report the same cause render to the same string, so repeating a call
/// that failed the same way yields the same error text.
pub proof fn lemma_rendering_deterministic(a: BridgeError, b: BridgeError)
    requires
        a.message@ == b.message@,
    ensures
        rendered_cause(a) == rendered_cause(b),
{
}

} // verus!
