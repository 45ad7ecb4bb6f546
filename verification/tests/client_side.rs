//! Caller-side behavior: request builders, the error taxonomy, the
//! convenience compositions, and the ICE server lookup policy.

use webrtc_signaling::client::{
    answer_sdp_of, build_close_request, build_ice_candidate_request, build_offer_request,
    exchange_result, remote_error, setup_session_result, ClientError, CLIENT_TIMEOUT_SECS,
};
use webrtc_signaling::ice_servers::{
    default_ice_servers, ice_servers_url, resolve_ice_servers, static_or_default,
    ICE_LOOKUP_TIMEOUT_SECS,
};
use webrtc_signaling::wire::{
    ErrorResponse, IceCandidate, IceCandidateResponse, IceServer, SdpAnswerResponse,
    SdpSessionDescription,
};

fn answer(session_id: &str, sdp: &str) -> SdpAnswerResponse {
    SdpAnswerResponse {
        sdp: SdpSessionDescription {
            sdp_type: "answer".to_string(),
            sdp: sdp.to_string(),
        },
        session_id: session_id.to_string(),
        ice_candidates: None,
        metadata: None,
    }
}

fn server(urls: &[&str]) -> IceServer {
    IceServer {
        urls: urls.iter().map(|u| u.to_string()).collect(),
        username: None,
        credential: None,
    }
}

#[test]
fn offer_request_always_travels_as_offer() {
    let request = build_offer_request(
        "v=0\r\no=- 123456789 123456789 IN IP4 192.168.1.1\r\n".to_string(),
        Some("test-session".to_string()),
        None,
    );
    assert_eq!(request.sdp.sdp_type, "offer");
    assert_eq!(
        request.sdp.sdp,
        "v=0\r\no=- 123456789 123456789 IN IP4 192.168.1.1\r\n"
    );
    assert_eq!(request.session_id.as_deref(), Some("test-session"));
    assert!(request.metadata.is_none());
}

#[test]
fn candidate_and_close_requests_carry_their_fields() {
    let ice = build_ice_candidate_request(
        "test-session".to_string(),
        IceCandidate {
            candidate: "candidate:1 1 UDP 2013266431 192.168.1.1 54400 typ host".to_string(),
            sdp_m_line_index: Some(0),
            sdp_mid: Some("0".to_string()),
        },
    );
    assert_eq!(ice.session_id, "test-session");
    assert!(ice.candidate.candidate.contains("candidate:1"));

    let close = build_close_request("test-session".to_string(), Some("Test completed".to_string()));
    assert_eq!(close.session_id, "test-session");
    assert_eq!(close.reason.as_deref(), Some("Test completed"));
}

#[test]
fn remote_error_keeps_code_and_message() {
    let e = remote_error(ErrorResponse {
        error: "Invalid SDP format".to_string(),
        code: 400,
        session_id: Some("test-session".to_string()),
    });
    match e {
        ClientError::Remote { code, message } => {
            assert_eq!(code, 400);
            assert_eq!(message, "Invalid SDP format");
        }
        ClientError::Transport(_) => panic!("a decoded server error is a remote error"),
    }
}

#[test]
fn exchange_results_extract_id_and_answer() {
    let (sid, sdp) = exchange_result(answer("s-1", "v=0 answer"));
    assert_eq!(sid, "s-1");
    assert_eq!(sdp, "v=0 answer");

    assert_eq!(answer_sdp_of(answer("s-2", "other answer")), "other answer");
}

#[test]
fn setup_session_ignores_candidate_failures() {
    let outcomes: Vec<Result<IceCandidateResponse, ClientError>> = vec![
        Ok(IceCandidateResponse {
            session_id: "s-3".to_string(),
            status: "received".to_string(),
        }),
        Err(ClientError::Transport("connection reset".to_string())),
    ];
    let (sid, sdp) = setup_session_result(answer("s-3", "the answer"), &outcomes);
    assert_eq!(sid, "s-3");
    assert_eq!(sdp, "the answer");
}

#[test]
fn timeouts_are_bounded() {
    assert_eq!(CLIENT_TIMEOUT_SECS, 30);
    assert_eq!(ICE_LOOKUP_TIMEOUT_SECS, 5);
}

#[test]
fn default_ice_list_is_a_single_stun_descriptor() {
    let servers = default_ice_servers();
    assert_eq!(servers.len(), 1);
    assert_eq!(servers[0].urls, vec!["stun:restsend.com:3478".to_string()]);
    assert!(servers[0].username.is_none());
    assert!(servers[0].credential.is_none());
}

#[test]
fn static_fallback_prefers_configured_list() {
    let configured = vec![server(&["turn:example.org:3478"])];
    let resolved = static_or_default(Some(configured));
    assert_eq!(resolved.len(), 1);
    assert_eq!(resolved[0].urls[0], "turn:example.org:3478");

    let from_empty = static_or_default(Some(Vec::new()));
    assert_eq!(from_empty[0].urls[0], "stun:restsend.com:3478");

    let from_none = static_or_default(None);
    assert_eq!(from_none[0].urls[0], "stun:restsend.com:3478");
}

#[test]
fn no_token_means_no_upstream_lookup() {
    let configured = vec![server(&["stun:local.example:3478"])];
    let resolved = resolve_ice_servers("", Some(configured), None);
    assert_eq!(resolved[0].urls[0], "stun:local.example:3478");
}

#[test]
fn upstream_success_wins_over_static_list() {
    let configured = vec![server(&["stun:local.example:3478"])];
    let upstream = vec![server(&["turn:upstream.example:443"])];
    let resolved = resolve_ice_servers("tok", Some(configured), Some(Ok(upstream)));
    assert_eq!(resolved[0].urls[0], "turn:upstream.example:443");
}

#[test]
fn upstream_failure_degrades_to_static_list() {
    let configured = vec![server(&["stun:local.example:3478"])];
    let resolved = resolve_ice_servers(
        "tok",
        Some(configured),
        Some(Err("status 503".to_string())),
    );
    assert_eq!(resolved[0].urls[0], "stun:local.example:3478");

    // A failed lookup with no configured list still answers usably.
    let resolved = resolve_ice_servers("tok", None, Some(Err("timed out".to_string())));
    assert_eq!(resolved[0].urls[0], "stun:restsend.com:3478");
}

#[test]
fn upstream_url_is_assembled_exactly() {
    let url = ice_servers_url("tok-1", "", "203.0.113.9");
    assert_eq!(
        url,
        "https://restsend.com/api/iceservers?token=tok-1&user=&client=203.0.113.9"
    );
}
