//! A WebRTC signaling exchange layer: validates SDP offers, allocates and
//! tracks session identities, relays trickled ICE candidates, terminates
//! sessions, and provides the caller-side request builders and error taxonomy
//! for driving the exchange.
//!
//! The media engine (peer-connection setup, track negotiation) is an external
//! collaborator: a negotiation is begun with
//! [`coordinator::begin_negotiation`], the engine is consulted only for an
//! admitted offer, and its outcome is handed back to
//! [`coordinator::Coordinator::finish_negotiation`]. Network transport is
//! likewise left to the host environment, which exchanges plain values with
//! this library.

pub mod client;
pub mod coordinator;
pub mod ice_servers;
pub mod session_id;
pub mod text;
pub mod validate;
pub mod wire;
