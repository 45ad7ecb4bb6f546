//! ICE server lookup policy.
//!
//! The lookup never fails outward. Without an upstream token the statically
//! configured list answers, or — if that is empty or absent — a single
//! default STUN-only descriptor. With a token the caller attempts the
//! upstream fetch (bounded by [`ICE_LOOKUP_TIMEOUT_SECS`]) and hands the
//! outcome to [`resolve_ice_servers`]; any failure silently degrades to the
//! static fallback instead of propagating.

use vstd::prelude::*;

use crate::wire::IceServer;

verus! {

/// Bound on the upstream ICE-server fetch, in seconds.
pub const ICE_LOOKUP_TIMEOUT_SECS: u64 = 5;

/// The URL of the default STUN-only descriptor.
pub open spec fn default_stun_url() -> Seq<char> {
    "stun:restsend.com:3478"@
}

/// The degraded answer of last resort: exactly one credential-less STUN
/// descriptor.
pub open spec fn is_default_ice_list(r: Seq<IceServer>) -> bool {
    &&& r.len() == 1
    &&& r[0].urls@.len() == 1
    &&& r[0].urls@[0]@ == default_stun_url()
    &&& r[0].username is None
    &&& r[0].credential is None
}

/// What the static fallback answers: the configured list when it is present
/// and non-empty, else the default STUN-only list.
pub open spec fn is_static_fallback(r: Seq<IceServer>, configured: Option<Vec<IceServer>>) -> bool {
    match configured {
        Some(list) => if list@.len() > 0 {
            r == list@
        } else {
            is_default_ice_list(r)
        },
        None => is_default_ice_list(r),
    }
}

pub fn default_ice_servers() -> (r: Vec<IceServer>)
    ensures
        is_default_ice_list(r@),
{
    let mut urls: Vec<String> = Vec::new();
    urls.push(String::from_str("stun:restsend.com:3478"));
    let mut servers: Vec<IceServer> = Vec::new();
    servers.push(IceServer { urls, username: None, credential: None });
    servers
}

pub fn static_or_default(configured: Option<Vec<IceServer>>) -> (r: Vec<IceServer>)
    ensures
        is_static_fallback(r@, configured),
{
    match configured {
        Some(list) => {
            if list.len() > 0 {
                list
            } else {
                default_ice_servers()
            }
        },
        None => default_ice_servers(),
    }
}

/// Resolves the ICE server list from the upstream token, the static
/// configuration, and the outcome of the upstream fetch (absent when no fetch
/// was attempted). An empty token means no upstream lookup; with a token, any
/// missing or failed fetch falls back to the static list. Never fails.
pub fn resolve_ice_servers(
    token: &str,
    configured: Option<Vec<IceServer>>,
    upstream: Option<Result<Vec<IceServer>, String>>,
) -> (r: Vec<IceServer>)
    ensures
        (if token@.len() == 0 {
            is_static_fallback(r@, configured)
        } else {
            match upstream {
                Some(outcome) => match outcome {
                    Ok(list) => r == list,
                    Err(_) => is_static_fallback(r@, configured),
                },
                None => is_static_fallback(r@, configured),
            }
        }),
{
    if token.is_empty() {
        static_or_default(configured)
    } else {
        match upstream {
            Some(outcome) => match outcome {
                Ok(list) => list,
                Err(_) => static_or_default(configured),
            },
            None => static_or_default(configured),
        }
    }
}

/// The upstream lookup URL for a given token, user id and client address.
pub fn ice_servers_url(token: &str, user: &str, client_ip: &str) -> (r: String)
    ensures
        r@ == "https://restsend.com/api/iceservers?token="@ + token@ + "&user="@ + user@
            + "&client="@ + client_ip@,
{
    let mut url = String::from_str("https://restsend.com/api/iceservers?token=");
    url.append(token);
    url.append("&user=");
    url.append(user);
    url.append("&client=");
    url.append(client_ip);
    url
}

} // verus!
