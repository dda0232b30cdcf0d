//! The request shapes a caller hands the gateway.
//!
//! Every field is owned data constructed fresh per call; the gateway neither
//! validates nor interprets any of it. In particular the legacy intent field
//! and its structured replacement may both be present: precedence between
//! them is the bridge's decision, never the gateway's.

use vstd::prelude::*;

verus! {

/// Desired emotional content for a generation request. All fields are
/// optional so that a payload with every field absent is still structurally
/// valid: whether total absence is an error is for the bridge to decide.
pub struct EmotionalIntent {
    /// Legacy semantic-intent field.
    pub core_wound: Option<String>,
    /// Legacy semantic-intent field.
    pub core_desire: Option<String>,
    /// Deprecated legacy field, kept so old callers keep working.
    pub emotional_intent: Option<String>,
    /// Technical generation parameters; the schema is owned by the bridge
    /// and is not inspected here.
    pub technical: Option<serde_json::Value>,
    /// Structured replacement for the legacy fields: the base emotion.
    pub base_emotion: Option<String>,
    /// Structured replacement for the legacy fields: its intensity.
    pub intensity: Option<String>,
    /// Structured replacement for the legacy fields: a specific emotion.
    pub specific_emotion: Option<String>,
}

/// A music-generation request: the intent, and an optional output format
/// (absent means the bridge's default format).
pub struct GenerateRequest {
    pub intent: EmotionalIntent,
    pub output_format: Option<String>,
}

/// An interrogation request. The message may be empty — validating it is the
/// bridge's responsibility. An absent session id means a new session; the
/// gateway never reads the field either way. The context value's schema is
/// owned by the bridge.
pub struct InterrogateRequest {
    pub message: String,
    pub session_id: Option<String>,
    pub context: Option<serde_json::Value>,
}

} // verus!
