//! Structural validation of an incoming SDP offer.
//!
//! Two cheap checks, in order, first failure wins: the description must
//! travel in the offer direction, and its body must not be blank. No SDP
//! grammar is checked here; malformed-but-nonempty SDP is passed through to
//! the media engine, whose failure is a negotiation error, not a validation
//! error.

use vstd::prelude::*;

use crate::text::{is_blank, str_eq, str_is_blank};
use crate::wire::SdpSessionDescription;

verus! {

/// Why an offer was rejected before the media engine was consulted.
#[derive(Debug, Clone, Copy, PartialEq, Eq, Structural)]
pub enum ValidationError {
    /// The description's type was not `"offer"`.
    InvalidKind,
    /// The SDP body was empty after trimming surrounding whitespace.
    EmptyBody,
}

/// The type tag an incoming description must carry.
pub open spec fn offer_type() -> Seq<char> {
    "offer"@
}

/// The type tag every returned answer carries.
pub open spec fn answer_type() -> Seq<char> {
    "answer"@
}

/// A description passes validation when it is an offer with a non-blank body.
pub open spec fn offer_is_valid(offer: SdpSessionDescription) -> bool {
    offer.sdp_type@ == offer_type() && !is_blank(offer.sdp@)
}

pub fn validate_offer(offer: &SdpSessionDescription) -> (r: Result<(), ValidationError>)
    ensures
        r is Ok <==> offer_is_valid(*offer),
        offer.sdp_type@ != offer_type() ==> r == Err::<(), ValidationError>(
            ValidationError::InvalidKind,
        ),
        offer.sdp_type@ == offer_type() && is_blank(offer.sdp@) ==> r == Err::<(),
            ValidationError,
        >(ValidationError::EmptyBody),
{
    if !str_eq(offer.sdp_type.as_str(), "offer") {
        return Err(ValidationError::InvalidKind);
    }
    if str_is_blank(offer.sdp.as_str()) {
        return Err(ValidationError::EmptyBody);
    }
    Ok(())
}

} // verus!
