//! Session identity allocation.
//!
//! A session id is a string correlation key binding an offer, its answer and
//! the subsequent ICE/close calls. A caller may supply its own non-empty id
//! (caller-controlled tracking); otherwise a fresh 128-bit random identity is
//! generated and rendered in its canonical hyphenated form. Uniqueness
//! against concurrently-live caller-supplied ids is not checked here: callers
//! supplying explicit ids are responsible for avoiding collisions.

use vstd::prelude::*;

verus! {

/// A lowercase hexadecimal digit.
pub open spec fn is_lower_hex_digit(c: char) -> bool {
    (0x30 <= c as u32 && c as u32 <= 0x39) || (0x61 <= c as u32 && c as u32 <= 0x66)
}

/// The canonical shape of a generated session id: 36 characters, lowercase
/// hexadecimal digits with hyphens at positions 8, 13, 18 and 23.
pub open spec fn is_canonical_session_id(s: Seq<char>) -> bool {
    &&& s.len() == 36
    &&& forall|i: int|
        0 <= i < s.len() ==> {
            if i == 8 || i == 13 || i == 18 || i == 23 {
                #[trigger] s[i] == '-'
            } else {
                is_lower_hex_digit(s[i])
            }
        }
}

/// Relies on `uuid::Uuid::new_v4` and its `Display` form: a freshly drawn
/// random identity rendered hyphenated and lowercase, which is 36 characters
/// of lowercase hex digits with hyphens at positions 8, 13, 18 and 23. The
/// drawn value is random, so nothing is promised about which id comes back,
/// nor that two calls differ.
#[verifier::external_body]
fn fresh_session_id() -> (r: String)
    ensures
        is_canonical_session_id(r@),
{
    uuid::Uuid::new_v4().to_string()
}

/// Returns a non-empty explicit id unchanged; otherwise allocates a fresh
/// canonical id. The result is never empty.
pub fn allocate_session_id(explicit: Option<String>) -> (r: String)
    ensures
        (match explicit {
            Some(e) => if e@.len() > 0 {
                r@ == e@
            } else {
                is_canonical_session_id(r@)
            },
            None => is_canonical_session_id(r@),
        }),
        r@.len() > 0,
{
    match explicit {
        Some(e) => {
            if e.as_str().is_empty() {
                fresh_session_id()
            } else {
                e
            }
        },
        None => fresh_session_id(),
    }
}

} // verus!
