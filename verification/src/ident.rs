//! Unique identifiers: 128-bit values, made and parsed by the `uuid` crate.

use vstd::prelude::*;
use crate::error::ValidationError;

verus! {

/// What `uuid::Uuid::parse_str` makes of a text, as the 128-bit value of the
/// identifier it returns, or `None` where it returns an error. It accepts the
/// simple, hyphenated, braced and URN forms, in either letter case.
pub uninterp spec fn uuid_parse(text: Seq<char>) -> Option<u128>;

/// Calls `uuid::Uuid::parse_str` and hands out the identifier as the integer
/// that `as_u128` gives. The contract names the result.
#[verifier::external_body]
fn uuid_parse_str(text: &str) -> (parsed: Option<u128>)
    ensures
        parsed == uuid_parse(text@),
{
    match uuid::Uuid::parse_str(text) {
        Ok(id) => Some(id.as_u128()),
        Err(_) => None,
    }
}

/// Calls `uuid::Uuid::new_v4`, which draws a random identifier from the
/// operating system's generator and panics where that gives no bytes.
/// Nothing is claimed of the value.
#[verifier::external_body]
pub(crate) fn uuid_new_v4() -> (id: u128) {
    uuid::Uuid::new_v4().as_u128()
}

/// Turns a parsed identifier into the result of validation.
pub fn checked_id(parsed: Option<u128>) -> (r: Result<u128, ValidationError>)
    ensures
        parsed matches Some(id) ==> r == Ok::<u128, ValidationError>(id),
        parsed is None ==> r == Err::<u128, ValidationError>(ValidationError::MalformedId),
{
    match parsed {
        Some(id) => Ok(id),
        None => Err(ValidationError::MalformedId),
    }
}

/// Reads a task identifier from its text.
pub fn parse_task_id(text: &str) -> (r: Result<u128, ValidationError>)
    ensures
        uuid_parse(text@) matches Some(id) ==> r == Ok::<u128, ValidationError>(id),
        uuid_parse(text@) is None ==> r == Err::<u128, ValidationError>(
            ValidationError::MalformedId,
        ),
{
    checked_id(uuid_parse_str(text))
}

} // verus!
