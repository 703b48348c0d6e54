//! Credential hashing: passwords are stored as bcrypt hashes and checked
//! against them. The hashing itself is bcrypt's; what is proved here is how
//! its outcomes are reported.

use vstd::prelude::*;

verus! {

/// Why a password could not be hashed or checked.
#[derive(Clone, Copy, Debug, PartialEq, Eq, Structural)]
pub enum PasswordError {
    /// No hash could be produced: the system gave no randomness for the salt.
    HashingFailed,
    /// The stored value is not a bcrypt hash.
    MalformedHash,
}

/// bcrypt's error, as it comes back from hashing and verifying. Nothing is
/// read from it.
#[verifier::external_type_specification]
#[verifier::external_body]
pub struct ExBcryptError(bcrypt::BcryptError);

/// What `bcrypt::verify` makes of a password and a stored hash: `Some` of its
/// verdict, or `None` where it refuses the stored value.
pub uninterp spec fn bcrypt_verdict(password: Seq<char>, stored: Seq<char>) -> Option<bool>;

/// Calls `bcrypt::hash` at the default cost. Trusted: a hash that comes back
/// is one that `bcrypt::verify` accepts for the same password, since verifying
/// recomputes the hash from the salt and cost that the string carries.
#[verifier::external_body]
fn bcrypt_hash(password: &str) -> (r: Result<String, bcrypt::BcryptError>)
    ensures
        r matches Ok(hash) ==> bcrypt_verdict(password@, hash@) == Some(true),
{
    bcrypt::hash(password, bcrypt::DEFAULT_COST)
}

/// Calls `bcrypt::verify`. Trusted: its result is a function of the password
/// and the stored string alone, here named `bcrypt_verdict`.
#[verifier::external_body]
fn bcrypt_verify(password: &str, stored: &str) -> (r: Result<bool, bcrypt::BcryptError>)
    ensures
        r matches Ok(verdict) ==> bcrypt_verdict(password@, stored@) == Some(verdict),
        r is Err ==> bcrypt_verdict(password@, stored@) is None,
{
    bcrypt::verify(password, stored)
}

/// The outcome of checking `password` against `stored`: whether they match,
/// or that `stored` is no hash at all. A wrong password is `Ok(false)`, never
/// an error.
pub open spec fn verify_outcome(password: Seq<char>, stored: Seq<char>) -> Result<
    bool,
    PasswordError,
> {
    match bcrypt_verdict(password, stored) {
        Some(verdict) => Ok(verdict),
        None => Err(PasswordError::MalformedHash),
    }
}

/// Hashes a password with a fresh random salt. Whatever hash comes back
/// verifies against the same password; the only failure is `HashingFailed`.
pub fn hash_password(password: &str) -> (r: Result<String, PasswordError>)
    ensures
        r matches Ok(hash) ==> verify_outcome(password@, hash@) == Ok::<bool, PasswordError>(true),
        r matches Err(e) ==> e == PasswordError::HashingFailed,
{
    match bcrypt_hash(password) {
        Ok(hash) => Ok(hash),
        Err(_) => Err(PasswordError::HashingFailed),
    }
}

/// Checks a password against a stored hash.
pub fn verify_password(password: &str, hash: &str) -> (r: Result<bool, PasswordError>)
    ensures
        r == verify_outcome(password@, hash@),
{
    match bcrypt_verify(password, hash) {
        Ok(verdict) => Ok(verdict),
        Err(_) => Err(PasswordError::MalformedHash),
    }
}

} // verus!
