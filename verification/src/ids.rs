//! Identifier and address parsing done by outside crates.

use vstd::prelude::*;

verus! {

/// The 128-bit value that parsing a UUID string yields, or `None` where the
/// string is not a UUID in any accepted format.
pub uninterp spec fn uuid_of(s: Seq<char>) -> Option<u128>;

/// Relies on `uuid::Uuid::parse_str`: the result depends on the characters
/// alone, and `as_u128` reads the parsed value back as one 128-bit integer.
#[verifier::external_body]
pub(crate) fn parse_uuid(s: &String) -> (r: Option<u128>)
    ensures
        r == uuid_of(s@),
{
    match uuid::Uuid::parse_str(s) {
        Ok(u) => Some(u.as_u128()),
        Err(_) => None,
    }
}

/// Whether a string is a valid absolute URL.
pub uninterp spec fn url_ok(s: Seq<char>) -> bool;

/// Relies on `url::Url::parse`: validity depends on the characters alone.
#[verifier::external_body]
pub(crate) fn url_is_valid(s: &String) -> (r: bool)
    ensures
        r == url_ok(s@),
{
    match url::Url::parse(s) {
        Ok(_) => true,
        Err(_) => false,
    }
}

} // verus!
