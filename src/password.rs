use vstd::prelude::*;

use crate::errors::AppError;

verus! {

#[verifier::external_type_specification]
#[verifier::external_body]
pub struct ExBcryptError(bcrypt::BcryptError);

/// What checking `password` against the stored bcrypt `hash` yields:
/// whether it matches, or `None` when `hash` is not a bcrypt hash.
pub uninterp spec fn bcrypt_verdict(password: Seq<char>, hash: Seq<char>) -> Option<bool>;

/// Relies on `bcrypt::verify`: the outcome depends on the password and the
/// stored hash alone, and a hash that does not parse is an error.
#[verifier::external_body]
fn bcrypt_verify(password: &str, hash: &str) -> (r: Result<bool, bcrypt::BcryptError>)
    ensures
        r is Ok <==> bcrypt_verdict(password@, hash@) is Some,
        r matches Ok(b) ==> bcrypt_verdict(password@, hash@) == Some(b),
{
    bcrypt::verify(password, hash)
}

/// Relies on `bcrypt::hash` with `bcrypt::DEFAULT_COST`: the salt is random,
/// so of the hash only this is promised: `bcrypt::verify` accepts the same
/// password against it.
#[verifier::external_body]
fn bcrypt_hash(password: &str) -> (r: Result<String, bcrypt::BcryptError>)
    ensures
        r matches Ok(h) ==> bcrypt_verdict(password@, h@) == Some(true),
{
    bcrypt::hash(password, bcrypt::DEFAULT_COST)
}

/// Hashes `password` for storage with a fresh random salt.
pub fn hash_password(password: &str) -> (r: Result<String, AppError>)
    ensures
        r matches Ok(h) ==> bcrypt_verdict(password@, h@) == Some(true),
        r matches Err(e) ==> e is HashError,
{
    match bcrypt_hash(password) {
        Ok(h) => Ok(h),
        Err(_) => Err(AppError::HashError),
    }
}

/// Whether `password` matches the stored `password_hash`; an error when the
/// stored value is not a bcrypt hash.
pub fn verify_password(password: &str, password_hash: &str) -> (r: Result<bool, AppError>)
    ensures
        match bcrypt_verdict(password@, password_hash@) {
            Some(b) => r matches Ok(v) && v == b,
            None => r matches Err(AppError::HashError),
        },
{
    match bcrypt_verify(password, password_hash) {
        Ok(b) => Ok(b),
        Err(_) => Err(AppError::HashError),
    }
}

/// The login decision: succeeds when an account was found and `password`
/// matches its stored hash. An unknown account and a wrong password are
/// reported alike, so that callers cannot probe which usernames exist.
pub fn check_credentials(stored_hash: Option<&str>, password: &str) -> (r: Result<(), AppError>)
    ensures
        match stored_hash {
            None => r matches Err(AppError::AuthenticationError),
            Some(h) => match bcrypt_verdict(password@, h@) {
                Some(true) => r is Ok,
                Some(false) => r matches Err(AppError::AuthenticationError),
                None => r matches Err(AppError::HashError),
            },
        },
{
    let h = match stored_hash {
        None => return Err(AppError::AuthenticationError),
        Some(h) => h,
    };
    if verify_password(password, h)? {
        Ok(())
    } else {
        Err(AppError::AuthenticationError)
    }
}

} // verus!
