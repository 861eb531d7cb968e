//! Password hashing and verification, done by the `bcrypt` crate.

use vstd::prelude::*;
use crate::error::AuthError;

verus! {

/// The cost factor every new hash is made with.
pub const HASH_COST: u32 = 12;

/// The error type of the `bcrypt` crate, carried through unopened.
#[verifier::external_type_specification]
#[verifier::external_body]
pub struct ExBcryptError(bcrypt::BcryptError);

/// What `bcrypt::verify` returns for a password and a hash string: `Some(b)`
/// where it returns `Ok(b)`, `None` where it returns an error. It re-hashes
/// the password with the cost and salt that the hash string carries, so the
/// result depends on the two texts alone.
pub uninterp spec fn bcrypt_verdict(password: Seq<char>, hash: Seq<char>) -> Option<bool>;

/// Calls `bcrypt::hash`, which salts the hash with fresh random bytes. Nothing
/// is claimed of the hash string itself; the contract claims only that a hash
/// it hands out verifies against the password it was made from, as the crate
/// documents for `hash` followed by `verify`.
#[verifier::external_body]
fn bcrypt_hash(password: &str, cost: u32) -> (r: Result<String, bcrypt::BcryptError>)
    ensures
        r matches Ok(hash) ==> bcrypt_verdict(password@, hash@) == Some(true),
{
    bcrypt::hash(password, cost)
}

/// Calls `bcrypt::verify`, whose comparison of the two digests takes constant
/// time. The contract names the result and claims nothing more of it.
#[verifier::external_body]
fn bcrypt_verify(password: &str, hash: &str) -> (r: Result<bool, bcrypt::BcryptError>)
    ensures
        r matches Ok(same) ==> bcrypt_verdict(password@, hash@) == Some(same),
        r is Err ==> bcrypt_verdict(password@, hash@) is None,
{
    bcrypt::verify(password, hash)
}

/// Renders a `bcrypt::BcryptError` through its `Display` impl. Nothing is
/// claimed of the text.
#[verifier::external_body]
fn bcrypt_error_text(error: &bcrypt::BcryptError) -> (text: String) {
    format!("{}", error)
}

/// Whether a password is accepted for a stored hash: exactly when
/// verification gives a positive verdict.
pub open spec fn password_accepted(password: Seq<char>, hash: Seq<char>) -> bool {
    bcrypt_verdict(password, hash) == Some(true)
}

/// Decides acceptance from what verification returned. Only a positive
/// verdict accepts: a mismatch and a failed verification both refuse.
pub fn accept_verdict(verdict: Option<bool>) -> (accepted: bool)
    ensures
        accepted == (verdict == Some(true)),
{
    match verdict {
        Some(same) => same,
        None => false,
    }
}

/// Verifies a password against a stored hash.
pub fn verify_password(password: &str, hash: &str) -> (accepted: bool)
    ensures
        accepted == password_accepted(password@, hash@),
{
    let verdict = match bcrypt_verify(password, hash) {
        Ok(same) => Some(same),
        Err(_) => None,
    };
    accept_verdict(verdict)
}

/// Hashes a password with a fresh salt at [`HASH_COST`]. Whether hashing
/// succeeds rests with the source of randomness; a hash that is returned is
/// one the password is accepted for.
pub fn hash_password(password: &str) -> (r: Result<String, AuthError>)
    ensures
        r matches Ok(hash) ==> password_accepted(password@, hash@),
        r matches Err(e) ==> e is HashingFailed,
{
    match bcrypt_hash(password, HASH_COST) {
        Ok(hash) => Ok(hash),
        Err(error) => Err(AuthError::HashingFailed(bcrypt_error_text(&error))),
    }
}

} // verus!
