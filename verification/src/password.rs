//! Credential hashing: one-way, salted password digests and their
//! verification.
//!
//! A digest embeds its own salt and parameters, so hashing the same
//! password twice yields different digests while both keep verifying.
//! Whether a password matches a digest is a function of the two texts
//! alone; `digest_matches` names that function, and the trusted calls
//! below are believed to compute it.

use vstd::prelude::*;
use argon2::PasswordHasher;
use argon2::PasswordVerifier;

verus! {

pub uninterp spec fn digest_matches(password: Seq<char>, digest: Seq<char>) -> bool;

#[verifier::external_type_specification]
#[verifier::external_body]
pub struct ExSaltString(password_hash::SaltString);

/// A fresh random salt.
///
/// Relies on password_hash's SaltString::generate over the operating
/// system's RNG; nothing is promised of the value drawn.
#[verifier::external_body]
fn generate_salt() -> password_hash::SaltString {
    password_hash::SaltString::generate(&mut password_hash::rand_core::OsRng)
}

/// Hash a password with the given salt into a digest text that embeds
/// the salt and parameters. `None` only if the hasher itself failed.
///
/// Relies on argon2's PasswordHasher::hash_password under default
/// parameters: a digest freshly produced from a password verifies
/// against that same password, whatever salt was used.
#[verifier::external_body]
fn argon2_hash(password: &str, salt: &password_hash::SaltString) -> (r: Option<String>)
    ensures
        r matches Some(d) ==> digest_matches(password@, d@),
{
    match argon2::Argon2::default().hash_password(password.as_bytes(), salt) {
        Ok(h) => Some(h.to_string()),
        Err(_) => None,
    }
}

/// Whether `password` matches `digest`. A malformed digest fails
/// closed: the result is `false`, with no detail about why.
///
/// Relies on password_hash's PasswordHash::new to parse the digest and
/// on argon2's PasswordVerifier::verify_password: both read only the
/// two texts, so the outcome is a function of the pair, named
/// `digest_matches`. The underlying comparison is constant-time
/// (password_hash's Output compares via subtle's ConstantTimeEq).
#[verifier::external_body]
pub fn verify_password(password: &str, digest: &str) -> (r: bool)
    ensures
        r == digest_matches(password@, digest@),
{
    match password_hash::PasswordHash::new(digest) {
        Ok(parsed) => {
            argon2::Argon2::default().verify_password(password.as_bytes(), &parsed).is_ok()
        },
        Err(_) => false,
    }
}

/// Hash a password with a fresh per-call salt. `None` only if the
/// hasher itself failed; any digest returned matches the password.
pub fn hash_password(password: &str) -> (r: Option<String>)
    ensures
        r matches Some(d) ==> digest_matches(password@, d@),
{
    let salt = generate_salt();
    argon2_hash(password, &salt)
}

/// Hash a password and verify the fresh digest against it.
///
/// This states the hasher's round-trip law: whenever hashing succeeds,
/// verification of the digest it produced cannot return anything but
/// `true` — Verus proves the `Some(true)` from the two contracts above,
/// for every password.
pub fn hashed_password_verifies(password: &str) -> (r: Option<bool>)
    ensures
        r matches Some(verified) ==> verified,
{
    match hash_password(password) {
        None => None,
        Some(digest) => Some(verify_password(password, digest.as_str())),
    }
}

} // verus!
