//! Identifier handling. Identifiers are opaque 128-bit values; their
//! textual form, and the minting of fresh ones, come from the `uuid`
//! crate behind the two trusted items below.

use vstd::prelude::*;

verus! {

/// The 128-bit value, if any, that a piece of identifier text denotes.
/// The acceptable texts and the value each one denotes depend on the
/// characters alone; they are fixed by `uuid::Uuid::parse_str`.
pub uninterp spec fn uuid_of(s: Seq<char>) -> Option<u128>;

/// Relies on `uuid::Uuid::parse_str` together with `Uuid::as_u128`:
/// parsing is a pure function of the input text, returning its value on
/// the accepted texts and an error on all others.
#[verifier::external_body]
pub(crate) fn parse_uuid_text(s: &str) -> (r: Option<u128>)
    ensures
        r == uuid_of(s@),
{
    match uuid::Uuid::parse_str(s) {
        Ok(u) => Some(u.as_u128()),
        Err(_) => None,
    }
}

/// Relies on `uuid::Uuid::new_v4` together with `Uuid::as_u128`: the
/// value is drawn from the process's random source, so nothing is
/// promised of it.
#[verifier::external_body]
pub(crate) fn fresh_post_id() -> u128 {
    uuid::Uuid::new_v4().as_u128()
}

} // verus!
