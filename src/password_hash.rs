//! Argon2 password hashing with a fresh random salt per password, and
//! verification against a self-describing PHC string.
use argon2::password_hash::{PasswordHasher, PasswordVerifier};
use vstd::prelude::*;

verus! {

#[verifier::external_type_specification]
#[verifier::external_body]
pub struct ExSaltString(argon2::password_hash::SaltString);

/// Whether `PasswordHash::new` accepts a text as a PHC string.
pub uninterp spec fn phc_well_formed(encoded: Seq<char>) -> bool;

/// Whether `Argon2::verify_password` accepts a password against the hash that
/// `PasswordHash::new` read from a PHC string.
pub uninterp spec fn phc_accepts(password: Seq<char>, encoded: Seq<char>) -> bool;

/// Relies on `SaltString::generate` with the operating system's random source.
/// Nothing is known of the salt.
#[verifier::external_body]
fn fresh_salt() -> (r: argon2::password_hash::SaltString) {
    argon2::password_hash::SaltString::generate(&mut argon2::password_hash::rand_core::OsRng)
}

/// Relies on `PasswordHasher::hash_password` of `Argon2::default()`: the PHC
/// string of the password under the salt, or the text of its error. The
/// string names the algorithm, version, parameters and salt, so that
/// `PasswordHash::new` reads it back and `verify_password`, which re-hashes
/// with exactly those, accepts the password.
#[verifier::external_body]
fn argon2_hash(password: &str, salt: &argon2::password_hash::SaltString) -> (r: Result<
    String,
    String,
>)
    ensures
        r matches Ok(h) ==> phc_well_formed(h@) && phc_accepts(password@, h@),
{
    argon2::Argon2::default().hash_password(password.as_bytes(), salt).map(|h| h.to_string()).map_err(
        |e| e.to_string(),
    )
}

/// How a password compares with a stored PHC string.
#[derive(Clone, Copy, Debug, PartialEq, Eq, Structural)]
pub enum PasswordCheck {
    /// The password hashes to the stored digest.
    Verified,
    /// The stored string is a PHC string and the password does not match it.
    Mismatch,
    /// The stored string is not a PHC string.
    Malformed,
}

pub open spec fn password_check_of(password: Seq<char>, encoded: Seq<char>) -> PasswordCheck {
    if !phc_well_formed(encoded) {
        PasswordCheck::Malformed
    } else if phc_accepts(password, encoded) {
        PasswordCheck::Verified
    } else {
        PasswordCheck::Mismatch
    }
}

/// Relies on `PasswordHash::new`, which parses the stored string, and on
/// `PasswordVerifier::verify_password` of `Argon2::default()`, which re-derives
/// the digest with the parameters and salt that the string holds.
#[verifier::external_body]
fn argon2_check(password: &str, encoded: &str) -> (r: PasswordCheck)
    ensures
        !phc_well_formed(encoded@) ==> r == PasswordCheck::Malformed,
        phc_well_formed(encoded@) && phc_accepts(password@, encoded@) ==> r == PasswordCheck::Verified,
        phc_well_formed(encoded@) && !phc_accepts(password@, encoded@) ==> r == PasswordCheck::Mismatch,
{
    match argon2::PasswordHash::new(encoded) {
        Err(_) => PasswordCheck::Malformed,
        Ok(h) => match argon2::Argon2::default().verify_password(password.as_bytes(), &h) {
            Ok(()) => PasswordCheck::Verified,
            Err(_) => PasswordCheck::Mismatch,
        },
    }
}

/// Hashes a password under a freshly drawn salt. On failure the text of the
/// hasher's error is returned; it is meant for the server's log only.
pub(crate) fn hash_password_with_fresh_salt(password: &str) -> (r: Result<String, String>)
    ensures
        r matches Ok(h) ==> password_check_of(password@, h@) == PasswordCheck::Verified,
{
    let salt = fresh_salt();
    argon2_hash(password, &salt)
}

/// Compares a password with a stored PHC string.
pub fn check_password(password: &str, encoded: &str) -> (r: PasswordCheck)
    ensures
        r == password_check_of(password@, encoded@),
{
    argon2_check(password, encoded)
}

} // verus!
