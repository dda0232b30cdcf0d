//! The three gateway operations.
//!
//! Each operation is a single-shot exchange: the caller's request is handed
//! to the bridge exactly as received, and the bridge's outcome is settled
//! into the caller's response envelope. The bridge call itself may suspend
//! for outside work, so the host drives it: it feeds the gateway an event —
//! the caller's request, or the completed bridge outcome — and performs the
//! step the gateway decides on. The gateway holds no state across events.

use vstd::prelude::*;

use crate::bridge::{BridgeError, BridgeOutcome};
use crate::requests::{GenerateRequest, InterrogateRequest};

verus! {

/// One event of an exchange: the caller's request arrived, or the bridge
/// call completed with an outcome.
pub enum Event<Req> {
    Request(Req),
    BridgeDone(BridgeOutcome),
}

/// The step the host must perform next: call the bridge with exactly this
/// payload, or return this response to the caller.
pub enum Step<Req> {
    CallBridge(Req),
    Respond(Result<serde_json::Value, String>),
}

/// A response as the caller sees it: the error, if any, by its characters.
pub open spec fn response_view(r: Result<serde_json::Value, String>) -> Result<
    serde_json::Value,
    Seq<char>,
> {
    match r {
        Ok(v) => Ok(v),
        Err(s) => Err(s@),
    }
}

/// The response owed for a bridge outcome: a success value unchanged, a
/// failure as its rendered cause. No other datum enters the response.
pub open spec fn response_for(outcome: BridgeOutcome) -> Result<serde_json::Value, Seq<char>> {
    match outcome {
        BridgeOutcome::Success(v) => Ok(v),
        BridgeOutcome::Failure(e) => Err(crate::bridge::rendered_cause(e)),
    }
}

/// Settles a completed bridge call into the caller's response envelope.
fn settle(outcome: BridgeOutcome) -> (r: Result<serde_json::Value, String>)
    ensures
        response_view(r) == response_for(outcome),
{
    match outcome {
        BridgeOutcome::Success(v) => Ok(v),
        BridgeOutcome::Failure(e) => Err(e.message),
    }
}

/// The music-generation operation. A request event is forwarded to the
/// bridge whole — no field is read, merged or rewritten — and a completed
/// bridge call is answered by the response its outcome owes.
pub fn generate_music(event: Event<GenerateRequest>) -> (s: Step<GenerateRequest>)
    ensures
        event matches Event::Request(req) ==> s == Step::<GenerateRequest>::CallBridge(req),
        event matches Event::BridgeDone(o) ==> (s matches Step::Respond(r) && response_view(r)
            == response_for(o)),
{
    match event {
        Event::Request(req) => Step::CallBridge(req),
        Event::BridgeDone(o) => Step::Respond(settle(o)),
    }
}

/// The interrogation operation: the same shape as music generation. Session
/// continuity is entirely the bridge's business — a request is forwarded
/// whole whether its session id is present or absent.
pub fn interrogate(event: Event<InterrogateRequest>) -> (s: Step<InterrogateRequest>)
    ensures
        event matches Event::Request(req) ==> s == Step::<InterrogateRequest>::CallBridge(req),
        event matches Event::BridgeDone(o) ==> (s matches Step::Respond(r) && response_view(r)
            == response_for(o)),
{
    match event {
        Event::Request(req) => Step::CallBridge(req),
        Event::BridgeDone(o) => Step::Respond(settle(o)),
    }
}

/// The emotion-catalog operation. It takes no payload, so there is nothing
/// to forward: the host calls the bridge's catalog accessor directly and
/// settles the outcome here.
pub fn get_emotions(outcome: BridgeOutcome) -> (r: Result<serde_json::Value, String>)
    ensures
        response_view(r) == response_for(outcome),
{
    settle(outcome)
}

/// A gateway operation fails exactly when its bridge call failed: the
/// gateway never rejects a structurally valid request of its own accord, and
/// never masks a bridge failure as success.
pub proof fn lemma_failure_only_from_bridge(outcome: BridgeOutcome)
    ensures
        response_for(outcome) is Err <==> outcome is Failure,
{
}

/// A bridge success value is returned to the caller unchanged, whichever
/// operation produced it: every operation answers a completed call with
/// `response_for`, and on success that is the identity.
pub proof fn lemma_success_passthrough(v: serde_json::Value)
    ensures
        response_for(BridgeOutcome::Success(v)) == Ok::<serde_json::Value, Seq<char>>(v),
{
}

} // verus!
