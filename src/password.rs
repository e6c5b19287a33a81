//! Password hashing and checking with Argon2id.
use argon2::password_hash::{PasswordHasher, PasswordVerifier, SaltString};
use base64::engine::Engine;
use vstd::prelude::*;

use crate::code::random_usize;

verus! {

/// Number of random bytes in each salt.
pub const SALT_LEN: usize = 24;

/// The standard, padded base64 text of `bytes`.
pub uninterp spec fn base64_standard_of(bytes: Seq<u8>) -> Seq<char>;

/// The PHC string that Argon2id with default parameters makes of `password`
/// under the base64 salt `salt`, or `None` where it refuses the salt.
pub uninterp spec fn argon2_phc_of(password: Seq<char>, salt: Seq<char>) -> Option<Seq<char>>;

/// Whether the PHC string `hash` parses and matches `password`.
pub uninterp spec fn argon2_accepts(hash: Seq<char>, password: Seq<char>) -> bool;

/// The text of an optional string.
pub open spec fn opt_view(o: Option<String>) -> Option<Seq<char>> {
    match o {
        Some(s) => Some(s@),
        None => None,
    }
}

/// Relies on base64's `STANDARD.encode`: the padded base64 text of the bytes.
#[verifier::external_body]
fn encode_base64(bytes: &Vec<u8>) -> (r: String)
    ensures
        r@ == base64_standard_of(bytes@),
{
    base64::engine::general_purpose::STANDARD.encode(bytes)
}

/// Relies on password-hash's `SaltString::from_b64` and argon2's
/// `Argon2::default().hash_password`: a deterministic PHC string for the
/// password and salt, which `verify_password` accepts for the same password
/// (the round trip that argon2's documentation shows).
#[verifier::external_body]
fn argon2_hash(password: &str, salt: &str) -> (r: Option<String>)
    ensures
        opt_view(r) == argon2_phc_of(password@, salt@),
        r matches Some(h) ==> argon2_accepts(h@, password@),
{
    let salt = match SaltString::from_b64(salt) {
        Ok(s) => s,
        Err(_) => return None,
    };
    match argon2::Argon2::default().hash_password(password.as_bytes(), &salt) {
        Ok(h) => Some(h.to_string()),
        Err(_) => None,
    }
}

/// Relies on password-hash's `PasswordHash::new` and argon2's
/// `verify_password`: true exactly when the hash parses and matches.
#[verifier::external_body]
fn argon2_verify(hash: &str, password: &str) -> (r: bool)
    ensures
        r == argon2_accepts(hash@, password@),
{
    match argon2::password_hash::PasswordHash::new(hash) {
        Ok(parsed) => argon2::Argon2::default().verify_password(password.as_bytes(), &parsed).is_ok(),
        Err(_) => false,
    }
}

/// Hashes `cleartext_password` under the given salt bytes.
pub fn hash_password_with_salt(cleartext_password: &str, salt: &Vec<u8>) -> (r: Option<String>)
    ensures
        opt_view(r) == argon2_phc_of(cleartext_password@, base64_standard_of(salt@)),
        r matches Some(h) ==> argon2_accepts(h@, cleartext_password@),
{
    let salt_b64 = encode_base64(salt);
    argon2_hash(cleartext_password, salt_b64.as_str())
}

/// A fresh random salt of `SALT_LEN` bytes.
fn random_salt() -> (r: Vec<u8>)
    ensures
        r@.len() == SALT_LEN,
{
    let mut salt: Vec<u8> = Vec::with_capacity(SALT_LEN);
    let mut i: usize = 0;
    while i < SALT_LEN
        invariant
            i <= SALT_LEN,
            salt@.len() == i,
        decreases SALT_LEN - i,
    {
        salt.push((random_usize() % 256) as u8);
        i = i + 1;
    }
    salt
}

/// Hashes `cleartext_password` under a fresh random salt, which the
/// returned PHC string carries. `None` where the hash function cannot run.
pub fn hash_password(cleartext_password: &str) -> (r: Option<String>)
    ensures
        exists|salt: Seq<u8>|
            salt.len() == SALT_LEN && opt_view(r) == argon2_phc_of(
                cleartext_password@,
                base64_standard_of(salt),
            ),
        r matches Some(h) ==> argon2_accepts(h@, cleartext_password@),
{
    let salt = random_salt();
    let r = hash_password_with_salt(cleartext_password, &salt);
    assert(salt@.len() == SALT_LEN);
    r
}

/// Whether `cleartext_password` matches the PHC string `hash`. A malformed
/// hash and a wrong password both give `false`.
pub fn check_password(hash: &str, cleartext_password: &str) -> (r: bool)
    ensures
        r == argon2_accepts(hash@, cleartext_password@),
{
    argon2_verify(hash, cleartext_password)
}

} // verus!
