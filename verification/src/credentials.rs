//! Password hashing and checking with bcrypt.

use vstd::prelude::*;

verus! {

/// The error type of the bcrypt crate.
#[verifier::external_type_specification]
#[verifier::external_body]
pub struct ExBcryptError(bcrypt::BcryptError);

/// What `bcrypt::verify(password, hash)` returns: `Some(b)` for `Ok(b)`,
/// `None` for an error (a hash that is not in bcrypt's format). It depends on
/// the two arguments alone.
pub uninterp spec fn bcrypt_verify_outcome(password: Seq<char>, hash: Seq<char>) -> Option<bool>;

/// The password could not be hashed: the system gave no random salt.
pub enum PasswordError {
    HashingFailed,
}

/// The shape of a hash that `bcrypt::hash` writes at cost 12: `$2b$12$`,
/// then 22 characters of salt and 31 of hash.
pub open spec fn bcrypt_hash_shape(h: Seq<char>) -> bool {
    h.len() == 60 && h.subrange(0, 7) == "$2b$12$"@
}

/// `bcrypt::hash` at `DEFAULT_COST` (12). The salt is random, so the hash is
/// not a function of the password; what holds of every outcome is its shape
/// (`$2b$12$`, the salt in 22 characters and the hash in 31, as bcrypt's
/// unpadded base64 writes 16 and 23 bytes) and that `verify` accepts the
/// password against it: `verify` re-hashes the password with the salt and
/// cost read back from the hash and compares. The only error comes from the
/// system's random source.
#[verifier::external_body]
pub(crate) fn bcrypt_hash(password: &str) -> (res: Result<String, bcrypt::BcryptError>)
    ensures
        res matches Ok(h) ==> bcrypt_verify_outcome(password@, h@) == Some(true),
        res matches Ok(h) ==> bcrypt_hash_shape(h@),
{
    bcrypt::hash(password, bcrypt::DEFAULT_COST)
}

/// `bcrypt::verify`: does `password` match the bcrypt `hash`?
#[verifier::external_body]
pub(crate) fn bcrypt_verify(password: &str, hash: &str) -> (res: Result<bool, bcrypt::BcryptError>)
    ensures
        match res {
            Ok(b) => bcrypt_verify_outcome(password@, hash@) == Some(b),
            Err(_) => bcrypt_verify_outcome(password@, hash@) is None,
        },
{
    bcrypt::verify(password, hash)
}

/// Hashes a password for storage.
pub fn hash_password(password: &str) -> (res: Result<String, PasswordError>)
    ensures
        res matches Ok(h) ==> bcrypt_verify_outcome(password@, h@) == Some(true),
        res matches Ok(h) ==> bcrypt_hash_shape(h@),
{
    match bcrypt_hash(password) {
        Ok(h) => Ok(h),
        Err(_) => Err(PasswordError::HashingFailed),
    }
}

} // verus!
