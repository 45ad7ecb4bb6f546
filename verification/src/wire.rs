//! The wire-contract data types of the signaling exchange: session
//! descriptions, trickled ICE candidates, the request/response pairs of the
//! offer, ICE-candidate and close operations, and the error payload.
//!
//! Caller-supplied metadata is an opaque, uninterpreted JSON document: it is
//! stored and echoed verbatim, never parsed or validated.

use vstd::prelude::*;

verus! {

/// `serde_json::Value` carries the opaque caller metadata through the
/// exchange. The library never looks inside a value of it.
#[verifier::external_type_specification]
#[verifier::external_body]
pub struct ExValue(serde_json::Value);

/// Relies on `serde_json::Value`'s derived `Clone`: the clone is a deep copy
/// equal to the original value.
pub assume_specification[ <serde_json::Value as Clone>::clone ](
    v: &serde_json::Value,
) -> (r: serde_json::Value)
    ensures
        r == *v,
;

/// An SDP session description: a direction of travel (`"offer"` or
/// `"answer"`) and an opaque SDP blob whose internals are never parsed.
#[derive(Debug, Clone)]
pub struct SdpSessionDescription {
    pub sdp_type: String,
    pub sdp: String,
}

/// One trickled ICE candidate. Both optional fields may be absent
/// (end-of-candidates signaling); the candidate string itself is opaque.
#[derive(Debug, Clone)]
pub struct IceCandidate {
    pub candidate: String,
    pub sdp_m_line_index: Option<u16>,
    pub sdp_mid: Option<String>,
}

/// An offer submission: the offer description, an optional caller-controlled
/// session id, and optional opaque metadata echoed back in the answer.
#[derive(Debug)]
pub struct SdpOfferRequest {
    pub sdp: SdpSessionDescription,
    pub session_id: Option<String>,
    pub metadata: Option<serde_json::Value>,
}

/// The answer to an offer: the answer description, the session id binding the
/// exchange, optionally gathered candidates, and the echoed metadata.
#[derive(Debug)]
pub struct SdpAnswerResponse {
    pub sdp: SdpSessionDescription,
    pub session_id: String,
    pub ice_candidates: Option<Vec<IceCandidate>>,
    pub metadata: Option<serde_json::Value>,
}

/// The error payload returned on a rejected or failed exchange.
#[derive(Debug)]
pub struct ErrorResponse {
    pub error: String,
    pub code: u16,
    pub session_id: Option<String>,
}

/// A trickled candidate addressed to a session.
#[derive(Debug)]
pub struct IceCandidateRequest {
    pub session_id: String,
    pub candidate: IceCandidate,
}

/// The acknowledgment of a relayed candidate.
#[derive(Debug)]
pub struct IceCandidateResponse {
    pub session_id: String,
    pub status: String,
}

/// A request to terminate a session, with an optional reason.
#[derive(Debug)]
pub struct CloseSessionRequest {
    pub session_id: String,
    pub reason: Option<String>,
}

/// The acknowledgment of a close.
#[derive(Debug)]
pub struct CloseSessionResponse {
    pub session_id: String,
    pub status: String,
}

/// An immutable ICE server descriptor: STUN/TURN urls with optional
/// credentials. Configuration, not session state.
#[derive(Debug, Clone)]
pub struct IceServer {
    pub urls: Vec<String>,
    pub username: Option<String>,
    pub credential: Option<String>,
}

} // verus!
