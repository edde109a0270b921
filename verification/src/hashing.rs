//! Password hashing.
//!
//! Hashes are Argon2 hashes in the PHC string format, computed and checked
//! by the `argon2` crate. Nothing of the algorithm is restated here: what
//! the crate answers is given a name, and the functions below are believed
//! to return what the names say.

use argon2::password_hash::rand_core::OsRng;
use argon2::password_hash::{PasswordHash, PasswordHasher, PasswordVerifier, SaltString};
use argon2::Argon2;
use vstd::prelude::*;

verus! {

#[verifier::external_type_specification]
#[verifier::external_body]
pub struct ExSaltString(argon2::password_hash::SaltString);

#[verifier::external_type_specification]
#[verifier::external_body]
pub struct ExHashError(argon2::password_hash::Error);

/// Whether `text` parses as a password hash in the PHC string format.
pub uninterp spec fn is_phc_string(text: Seq<char>) -> bool;

/// Whether Argon2, run on `password` with the parameters and the salt that
/// the PHC string `hash` records, arrives at the output that `hash`
/// records.
pub uninterp spec fn argon2_accepts(password: Seq<char>, hash: Seq<char>) -> bool;

/// `PasswordHash::new`: whether a string parses as a PHC string.
#[verifier::external_body]
pub(crate) fn parses_as_hash(text: &str) -> (parses: bool)
    ensures
        parses == is_phc_string(text@),
{
    PasswordHash::new(text).is_ok()
}

/// `PasswordVerifier::verify_password` of `Argon2::default()`, on the
/// bytes of `password` and the hash that `hash` parses to: whether the
/// password is the one that was hashed.
#[verifier::external_body]
pub(crate) fn verifies(password: &str, hash: &str) -> (accepted: bool)
    requires
        is_phc_string(hash@),
    ensures
        accepted == argon2_accepts(password@, hash@),
{
    match PasswordHash::new(hash) {
        Ok(parsed) => Argon2::default().verify_password(password.as_bytes(), &parsed).is_ok(),
        Err(_) => false,
    }
}

/// `SaltString::generate` on the operating system's random source: a fresh
/// random salt. Nothing is promised of it. The random source is taken to
/// work, as `generate` itself takes it.
#[verifier::external_body]
pub(crate) fn fresh_salt() -> (salt: SaltString) {
    SaltString::generate(&mut OsRng)
}

/// `PasswordHasher::hash_password` of `Argon2::default()`, on the bytes of
/// `password`: the hash as a PHC string, or the crate's error. A hash that
/// comes back is one that parses and that accepts the password it was made
/// from, which is the use that the crate documents: hash, write out, parse,
/// verify.
#[verifier::external_body]
pub(crate) fn hash_with_salt(password: &str, salt: &SaltString) -> (hashed: Result<
    String,
    argon2::password_hash::Error,
>)
    ensures
        hashed matches Ok(hash) ==> is_phc_string(hash@) && argon2_accepts(password@, hash@),
{
    match Argon2::default().hash_password(password.as_bytes(), salt) {
        Ok(hash) => Ok(hash.to_string()),
        Err(error) => Err(error),
    }
}

} // verus!
