use vstd::prelude::*;
use crate::errors::ApiError;

verus! {

/// What `bcrypt::verify(password, hash)` returns: `Some(b)` when the stored
/// hash parses and the recomputed digest compares as `b`, `None` when the
/// stored hash is malformed.  The result depends on the two strings alone.
pub uninterp spec fn bcrypt_check(password: Seq<char>, hash: Seq<char>) -> Option<bool>;

/// The error type of the bcrypt crate, carried through the wrappers.
#[verifier::external_type_specification]
#[verifier::external_body]
pub struct ExBcryptError(bcrypt::BcryptError);

/// Relies on bcrypt::verify: it parses the stored hash, recomputes the digest
/// with the salt and cost found there, and compares in constant time; the
/// outcome is a function of the password and the hash alone, and an error is
/// reported exactly when the stored hash does not parse.
#[verifier::external_body]
fn bcrypt_verify(password: &str, hash: &str) -> (r: Result<bool, bcrypt::BcryptError>)
    ensures
        r matches Ok(b) ==> bcrypt_check(password@, hash@) == Some(b),
        r is Err ==> bcrypt_check(password@, hash@) is None,
{
    bcrypt::verify(password, hash)
}

/// Relies on bcrypt::hash at the crate's default cost: the digest is salted
/// from OS randomness, so its value is not promised; bcrypt::verify accepts
/// it for the password it was computed from.
#[verifier::external_body]
fn bcrypt_hash(password: &str) -> (r: Result<String, bcrypt::BcryptError>)
    ensures
        r matches Ok(h) ==> bcrypt_check(password@, h@) == Some(true),
{
    bcrypt::hash(password, bcrypt::DEFAULT_COST)
}

/// One-way salted hashing of a credential.  The cost factor is the bcrypt
/// crate's documented default and is not configurable.  A hashing fault is
/// surfaced as `Internal`, never as a verification result.
pub fn hash_password(password: &str) -> (r: Result<String, ApiError>)
    ensures
        r matches Ok(h) ==> bcrypt_check(password@, h@) == Some(true),
        r matches Err(e) ==> e == ApiError::Internal,
{
    match bcrypt_hash(password) {
        Ok(h) => Ok(h),
        Err(_) => Err(ApiError::Internal),
    }
}

/// Recomputes and compares a credential against a stored hash.  A malformed
/// stored hash is surfaced as `Internal`, never treated as a failed match.
pub fn verify_password(password: &str, hash: &str) -> (r: Result<bool, ApiError>)
    ensures
        r matches Ok(b) ==> bcrypt_check(password@, hash@) == Some(b),
        r matches Err(e) ==> e == ApiError::Internal && bcrypt_check(password@, hash@) is None,
        (r is Ok) == (bcrypt_check(password@, hash@) is Some),
{
    match bcrypt_verify(password, hash) {
        Ok(b) => Ok(b),
        Err(_) => Err(ApiError::Internal),
    }
}

} // verus!
