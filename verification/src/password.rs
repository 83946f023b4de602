//! Passwords are kept as bcrypt hashes and checked against them.

use vstd::prelude::*;
use crate::error::{ErrorView, ServiceError};

verus! {

/// The type of failure that the bcrypt crate reports.
#[verifier::external_type_specification]
#[verifier::external_body]
pub struct ExBcryptError(bcrypt::BcryptError);

/// What `bcrypt::verify` answers for a password and a stored hash: whether
/// they agree, or `None` where the hash cannot be read.
pub uninterp spec fn bcrypt_check(password: Seq<char>, hash: Seq<char>) -> Option<bool>;

/// The password opens the hash: the check runs and says yes.
pub open spec fn password_accepted(password: Seq<char>, hash: Seq<char>) -> bool {
    bcrypt_check(password, hash) == Some(true)
}

/// Calls `bcrypt::verify`. Its answer depends on the password and the hash
/// alone: it reads cost and salt out of the hash, hashes the password with
/// them and compares. An error means that the hash is malformed.
#[verifier::external_body]
fn bcrypt_verify(password: &str, hash: &str) -> (r: Result<bool, bcrypt::BcryptError>)
    ensures
        (match r {
            Ok(agrees) => bcrypt_check(password@, hash@) == Some(agrees),
            Err(_) => bcrypt_check(password@, hash@) is None,
        }),
{
    bcrypt::verify(password, hash)
}

/// Calls `bcrypt::hash` at `bcrypt::DEFAULT_COST`. The salt is drawn at
/// random, so the hash differs from call to call; whatever it is,
/// `bcrypt::verify` accepts the same password against it, since it repeats
/// the computation with the salt and cost written into the hash. An error
/// means that no randomness could be had.
#[verifier::external_body]
fn bcrypt_hash(password: &str) -> (r: Result<String, bcrypt::BcryptError>)
    ensures
        r matches Ok(hash) ==> password_accepted(password@, hash@),
{
    bcrypt::hash(password, bcrypt::DEFAULT_COST)
}

/// Hashes a password for storage. A failure of the hashing is an internal
/// error.
pub fn hash_password(password: &str) -> (r: Result<String, ServiceError>)
    ensures
        (match r {
            Ok(hash) => password_accepted(password@, hash@),
            Err(e) => e@ == ErrorView::InternalServerError,
        }),
{
    match bcrypt_hash(password) {
        Ok(hash) => Ok(hash),
        Err(_) => Err(ServiceError::InternalServerError),
    }
}

/// Whether the password opens the stored hash. A hash that cannot be read
/// opens for nobody.
pub fn verify_password(password: &str, hash: &str) -> (accepted: bool)
    ensures
        accepted == password_accepted(password@, hash@),
{
    match bcrypt_verify(password, hash) {
        Ok(agrees) => agrees,
        Err(_) => false,
    }
}

} // verus!
