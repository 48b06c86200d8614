//! UUIDs, through the `uuid` crate, held as their 128-bit value.

use vstd::prelude::*;

verus! {

/// The UUID that `uuid::Uuid::parse_str` reads from a text, if it reads one.
pub uninterp spec fn uuid_parse(text: Seq<char>) -> Option<u128>;

/// The hyphenated lower-case text that `uuid::Uuid`'s `Display` writes for a value.
pub uninterp spec fn uuid_text(value: u128) -> Seq<char>;

/// Calls `uuid::Uuid::parse_str`. Claims: it succeeds exactly when `uuid_parse` names a
/// value, and then returns that value; on failure the text of `uuid::Error` is handed back,
/// of which nothing is claimed.
#[verifier::external_body]
pub(crate) fn parse_uuid(text: &str) -> (r: Result<u128, String>)
    ensures
        (r is Ok) == (uuid_parse(text@) is Some),
        r matches Ok(v) ==> uuid_parse(text@) == Some(v),
{
    match uuid::Uuid::parse_str(text) {
        Ok(u) => Ok(u.as_u128()),
        Err(e) => Err(e.to_string()),
    }
}

/// Calls `Uuid::from_u128` and `to_string`. Claims: the text is `uuid_text(value)`, it is
/// 36 characters long (the hyphenated format), and `Uuid::parse_str` reads it back as the
/// same value (the crate's documentation says every format it writes is parsed).
#[verifier::external_body]
pub(crate) fn uuid_to_string(value: u128) -> (r: String)
    ensures
        r@ == uuid_text(value),
        r@.len() == 36,
        uuid_parse(r@) == Some(value),
{
    uuid::Uuid::from_u128(value).to_string()
}

/// Calls `uuid::Uuid::new_v4`: a random value, of which nothing is claimed.
#[verifier::external_body]
pub(crate) fn new_uuid_v4() -> (r: u128) {
    uuid::Uuid::new_v4().as_u128()
}

} // verus!
