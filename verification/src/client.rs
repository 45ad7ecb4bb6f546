//! The caller-side counterpart of the signaling exchange: request builders,
//! the client error taxonomy, and the result shaping of the convenience
//! compositions. The network calls themselves live outside the library; they
//! hand the decoded payloads back to these functions.

use vstd::prelude::*;

use crate::validate::offer_type;
use crate::wire::{
    CloseSessionRequest, ErrorResponse, IceCandidate, IceCandidateRequest, IceCandidateResponse,
    SdpAnswerResponse, SdpOfferRequest, SdpSessionDescription,
};

verus! {

/// Bound on every signaling request a client issues, in seconds.
pub const CLIENT_TIMEOUT_SECS: u64 = 30;

/// How a client call failed. A transport failure (connection, timeout,
/// undecodable reply) may be retried; a remote rejection carries the server's
/// decoded error payload and should not be.
#[derive(Debug)]
pub enum ClientError {
    Transport(String),
    Remote { code: u16, message: String },
}

/// Builds an offer submission: the description always travels in the offer
/// direction, and the optional session id and metadata are passed through.
pub fn build_offer_request(
    offer_sdp: String,
    session_id: Option<String>,
    metadata: Option<serde_json::Value>,
) -> (r: SdpOfferRequest)
    ensures
        r.sdp.sdp_type@ == offer_type(),
        r.sdp.sdp == offer_sdp,
        r.session_id == session_id,
        r.metadata == metadata,
{
    SdpOfferRequest {
        sdp: SdpSessionDescription { sdp_type: String::from_str("offer"), sdp: offer_sdp },
        session_id,
        metadata,
    }
}

pub fn build_ice_candidate_request(session_id: String, candidate: IceCandidate) -> (r:
    IceCandidateRequest)
    ensures
        r.session_id == session_id,
        r.candidate == candidate,
{
    IceCandidateRequest { session_id, candidate }
}

pub fn build_close_request(session_id: String, reason: Option<String>) -> (r: CloseSessionRequest)
    ensures
        r.session_id == session_id,
        r.reason == reason,
{
    CloseSessionRequest { session_id, reason }
}

/// Maps a decoded server error payload to the remote arm of the taxonomy, so
/// callers can tell a rejected request from a transport failure.
pub fn remote_error(err: ErrorResponse) -> (e: ClientError)
    ensures
        e == (ClientError::Remote { code: err.code, message: err.error }),
{
    ClientError::Remote { code: err.code, message: err.error }
}

/// The simple offer/answer exchange returns the allocated session id and the
/// answer SDP.
pub fn exchange_result(answer: SdpAnswerResponse) -> (r: (String, String))
    ensures
        r.0 == answer.session_id,
        r.1 == answer.sdp.sdp,
{
    (answer.session_id, answer.sdp.sdp)
}

/// The session-tracking exchange already knows its id and keeps only the
/// answer SDP.
pub fn answer_sdp_of(answer: SdpAnswerResponse) -> (r: String)
    ensures
        r == answer.sdp.sdp,
{
    answer.sdp.sdp
}

/// Shapes the outcome of a full session setup. Individual candidate
/// deliveries may fail without aborting the setup: the result reflects only
/// the offer/answer outcome, whatever the relay outcomes were.
#[allow(unused_variables)]
pub fn setup_session_result(
    answer: SdpAnswerResponse,
    relay_outcomes: &Vec<Result<IceCandidateResponse, ClientError>>,
) -> (r: (String, String))
    ensures
        r.0 == answer.session_id,
        r.1 == answer.sdp.sdp,
{
    (answer.session_id, answer.sdp.sdp)
}

} // verus!
