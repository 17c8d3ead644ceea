//! Salted password hashing with Argon2, and verification of a password
//! against a stored hash.

use vstd::prelude::*;
use vstd::string::StringSliceAdditionalSpecFns;
use vstd::utf8::encode_utf8;
use argon2::{Argon2, PasswordHash, PasswordHasher, PasswordVerifier};
use argon2::password_hash::{Salt, SaltString};
use argon2::password_hash::rand_core::OsRng;

verus! {

/// The most bytes a password may have.
pub const MAX_PASSWORD_LEN: usize = 0xFFFF_FFFF;

/// The length of a fresh salt: sixteen random bytes in 22 characters of
/// base64.
pub const SALT_LEN: usize = 22;

/// The PHC string that Argon2 with its default parameters makes of a
/// password and a salt, the salt given as the bytes of its base64 text;
/// `None` where it makes none.
pub uninterp spec fn argon2_phc(password: Seq<u8>, salt: Seq<u8>) -> Option<Seq<char>>;

/// The salt that a PHC string carries, as the bytes of its base64 text.
pub uninterp spec fn phc_salt(hash: Seq<char>) -> Seq<u8>;

/// What Argon2 makes of a stored hash and a password: `None` where the hash
/// is no PHC string, else whether the password verifies against it.
pub uninterp spec fn hash_accepts(hash: Seq<char>, password: Seq<u8>) -> Option<bool>;

/// `SaltString::generate` with the operating system's random source: the
/// base64 text of sixteen random bytes, as bytes. Nothing is claimed of
/// their values but that Argon2 takes them as a salt: with such a salt it
/// fails only for a password longer than it takes.
#[verifier::external_body]
fn fresh_salt() -> (r: Vec<u8>)
    ensures
        r@.len() == SALT_LEN,
        forall|password: Seq<u8>|
            password.len() <= MAX_PASSWORD_LEN ==> (#[trigger] argon2_phc(password, r@)) is Some,
{
    SaltString::generate(&mut OsRng).as_str().as_bytes().to_vec()
}

/// `Salt::from_b64`, then `PasswordHasher::hash_password` of
/// `Argon2::default()`: the PHC string of the hash, a function of password
/// and salt alone, or `None` where the salt is not taken or the hashing
/// fails. The string carries the salt it was made with, and
/// `PasswordVerifier::verify_password` accepts it for the same password.
#[verifier::external_body]
fn hash_with_salt(password: &[u8], salt: &[u8]) -> (r: Option<String>)
    ensures
        r is Some <==> argon2_phc(password@, salt@) is Some,
        r matches Some(hash) ==> argon2_phc(password@, salt@) == Some(hash@),
        r matches Some(hash) ==> phc_salt(hash@) == salt@,
        r matches Some(hash) ==> hash_accepts(hash@, password@) == Some(true),
{
    let text = core::str::from_utf8(salt).ok()?;
    let salt = Salt::from_b64(text).ok()?;
    match Argon2::default().hash_password(password, salt) {
        Ok(hash) => Some(hash.to_string()),
        Err(_) => None,
    }
}

/// `PasswordHash::new`, then `PasswordVerifier::verify_password` of
/// `Argon2::default()`: `None` where the hash does not parse, else whether
/// the password verifies.
#[verifier::external_body]
fn check_hash(hash: &str, password: &[u8]) -> (r: Option<bool>)
    ensures
        r == hash_accepts(hash@, password@),
{
    match PasswordHash::new(hash) {
        Ok(parsed) => Some(Argon2::default().verify_password(password, &parsed).is_ok()),
        Err(_) => None,
    }
}

/// The stored hash is well formed and the password verifies against it.
pub open spec fn password_matches(hash: Seq<char>, password: Seq<char>) -> bool {
    hash_accepts(hash, encode_utf8(password)) == Some(true)
}

/// `hash` is the hash of `password` under `salt`: the PHC string that
/// Argon2 makes of the two, which carries the salt.
pub open spec fn is_hash_of(hash: Seq<char>, password: Seq<char>, salt: Seq<u8>) -> bool {
    &&& argon2_phc(encode_utf8(password), salt) == Some(hash)
    &&& phc_salt(hash) == salt
}

/// Hashes a password with a given salt, the salt as the bytes of its
/// base64 text. The same password and salt give the same hash; the hash
/// carries the salt, so another salt gives another hash. Gives nothing
/// where Argon2 does not take the salt or the password.
pub fn hash_password_with_salt(password: &str, salt: &[u8]) -> (r: Option<String>)
    ensures
        r is Some <==> argon2_phc(password.spec_bytes(), salt@) is Some,
        r matches Some(hash) ==> is_hash_of(hash@, password@, salt@),
        r matches Some(hash) ==> password_matches(hash@, password@),
{
    hash_with_salt(password.as_bytes(), salt)
}

/// Hashes a password with a fresh random salt. Gives the hash as a PHC
/// string and the salt it was made with: the hash is the hash of the
/// password under that salt, it carries the salt, and the password verifies
/// against it.
pub fn hash_password(password: &str) -> (r: (String, Vec<u8>))
    requires
        password.spec_bytes().len() <= MAX_PASSWORD_LEN,
    ensures
        is_hash_of(r.0@, password@, r.1@),
        password_matches(r.0@, password@),
        r.1@.len() == SALT_LEN,
{
    let salt = fresh_salt();
    match hash_password_with_salt(password, salt.as_slice()) {
        Some(hash) => (hash, salt),
        None => {
            proof {
                assert(argon2_phc(password.spec_bytes(), salt@) is Some);
            }
            (String::new(), salt)
        },
    }
}

/// Whether a password verifies against a stored hash. A hash that is no PHC
/// string accepts no password.
pub fn verify_password(hash: &str, password: &str) -> (r: bool)
    ensures
        r == password_matches(hash@, password@),
{
    match check_hash(hash, password.as_bytes()) {
        Some(accepted) => accepted,
        None => false,
    }
}

} // verus!
