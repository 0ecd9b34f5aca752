//! Credentials: one-way, salted, memory-hard hashing of passwords, and the
//! verification of a password against an encoded hash.

use argon2::{PasswordHasher, PasswordVerifier};
use vstd::prelude::*;

verus! {

/// The hasher reported a failure of its own; never a judgement on the
/// password.
#[derive(Debug, Clone, Copy, PartialEq, Eq)]
pub struct HashingFailed;

#[verifier::external_type_specification]
#[verifier::external_body]
pub struct ExPasswordHashError(argon2::password_hash::Error);

/// The encoded Argon2id hash (algorithm, version, parameters, salt and
/// digest in one PHC string) of a password under a salt, with the default
/// cost parameters; `None` where the hasher reports a failure.
pub uninterp spec fn argon2id_phc(password: Seq<char>, salt: Seq<char>) -> Option<Seq<char>>;

/// Whether an encoded hash parses as a PHC string and the password,
/// hashed with the parameters and salt found in it, gives the digest found
/// in it.
pub uninterp spec fn argon2_accepts(password: Seq<char>, encoded: Seq<char>) -> bool;

/// A character of the standard Base64 alphabet.
pub open spec fn is_base64_char(c: char) -> bool {
    ('A' <= c && c <= 'Z') || ('a' <= c && c <= 'z') || ('0' <= c && c <= '9') || c == '+' || c == '/'
}

/// The text of a salt of sixteen bytes: their unpadded Base64 encoding,
/// which is 22 characters of the alphabet, the last of them one of the four
/// that leave no stray bits behind.
pub open spec fn is_salt_text(salt: Seq<char>) -> bool {
    &&& salt.len() == 22
    &&& forall|i: int| 0 <= i < 22 ==> is_base64_char(#[trigger] salt[i])
    &&& (salt[21] == 'A' || salt[21] == 'Q' || salt[21] == 'g' || salt[21] == 'w')
}

/// The longest password, in bytes, that the hasher takes.
pub const MAX_PASSWORD_BYTES: u64 = 0xFFFF_FFFF;

/// A password that the hasher takes: its UTF-8 encoding is no longer than
/// `MAX_PASSWORD_BYTES`.
pub open spec fn is_hashable(password: Seq<char>) -> bool {
    vstd::utf8::encode_utf8(password).len() <= MAX_PASSWORD_BYTES
}

/// A fresh salt: calls `SaltString::generate` of `password-hash` with the
/// operating system's random number generator and returns the salt's text.
///
/// Trusted: the shape of the text, the unpadded Base64 of sixteen bytes.
/// The bytes are random: nothing is claimed of them, and two calls are not
/// claimed to differ.
#[verifier::external_body]
fn fresh_salt() -> (salt: String)
    ensures
        is_salt_text(salt@),
{
    argon2::password_hash::SaltString::generate(&mut argon2::password_hash::rand_core::OsRng).as_str().to_owned()
}

/// Calls `hash_password` of `argon2::Argon2::default()` (Argon2id, default
/// cost) on the password's bytes and the salt, and formats the result as a
/// PHC string.
///
/// Trusted: the result is a function of the password and the salt alone;
/// a hash that this call made is accepted, for the same password, by the
/// verification that `argon2_check` calls, which recomputes the digest
/// from the parameters and salt in the string and compares; and the call
/// succeeds for the text of a sixteen-byte salt and a password within the
/// hasher's length limit. With the default parameters the hasher's
/// refusals are for a salt that is not unpadded Base64 without stray bits,
/// or decodes to fewer than 8 bytes, and for a longer password.
#[verifier::external_body]
fn argon2id_encode(password: &str, salt: &str) -> (encoded: Result<String, argon2::password_hash::Error>)
    ensures
        match encoded {
            Ok(hash) => argon2id_phc(password@, salt@) == Some(hash@) && argon2_accepts(
                password@,
                hash@,
            ),
            Err(_) => argon2id_phc(password@, salt@) is None,
        },
        is_salt_text(salt@) && is_hashable(password@) ==> encoded is Ok,
{
    let salt = argon2::password_hash::SaltString::from_b64(salt)?;
    Ok(argon2::Argon2::default().hash_password(password.as_bytes(), &salt)?.to_string())
}

/// Parses the encoded hash with `PasswordHash::new` and calls
/// `verify_password` of `argon2::Argon2::default()` on the password's
/// bytes. A string that does not parse is an error like a digest that does
/// not match.
///
/// Trusted: the result is a function of the password and the encoded hash
/// alone.
#[verifier::external_body]
fn argon2_check(password: &str, encoded: &str) -> (checked: Result<(), argon2::password_hash::Error>)
    ensures
        checked is Ok <==> argon2_accepts(password@, encoded@),
{
    let parsed = argon2::password_hash::PasswordHash::new(encoded)?;
    argon2::Argon2::default().verify_password(password.as_bytes(), &parsed)
}

/// What hashing gives for a password under a salt: the encoded hash, or
/// `HashingFailed` where the hasher has none.
pub open spec fn hashing_outcome(password: Seq<char>, salt: Seq<char>) -> Result<Seq<char>, HashingFailed> {
    match argon2id_phc(password, salt) {
        Some(hash) => Ok(hash),
        None => Err(HashingFailed),
    }
}

/// The view of a hashing's result.
pub open spec fn hashed_view(hashed: Result<String, HashingFailed>) -> Result<Seq<char>, HashingFailed> {
    match hashed {
        Ok(hash) => Ok(hash@),
        Err(error) => Err(error),
    }
}

/// Hashes a password under the given salt. The same password under the
/// same salt gives the same hash: to store a credential, use
/// `hash_password`, which draws a fresh salt.
pub fn hash_password_with_salt(password: &str, salt: &str) -> (hashed: Result<String, HashingFailed>)
    ensures
        hashed_view(hashed) == hashing_outcome(password@, salt@),
        hashed matches Ok(hash) ==> argon2_accepts(password@, hash@),
        is_salt_text(salt@) && is_hashable(password@) ==> hashed is Ok,
{
    match argon2id_encode(password, salt) {
        Ok(hash) => Ok(hash),
        Err(_) => Err(HashingFailed),
    }
}

/// Hashes a password under a fresh random salt of sixteen bytes. Every
/// password within the hasher's length limit is hashed, whatever it holds,
/// and the encoded hash verifies against the same password.
pub fn hash_password(password: &str) -> (hashed: Result<String, HashingFailed>)
    ensures
        exists|salt: Seq<char>|
            is_salt_text(salt) && hashed_view(hashed) == #[trigger] hashing_outcome(password@, salt),
        hashed matches Ok(hash) ==> argon2_accepts(password@, hash@),
        is_hashable(password@) ==> hashed is Ok,
{
    let salt = fresh_salt();
    let hashed = hash_password_with_salt(password, salt.as_str());
    assert(is_salt_text(salt@) && hashed_view(hashed) == hashing_outcome(password@, salt@));
    hashed
}

/// Whether the password is the one that was hashed. An encoded hash that
/// is malformed or of a foreign format gives `false`, as a wrong password
/// does: the caller cannot tell the two apart.
pub fn verify_password(password: &str, password_hash: &str) -> (matches: bool)
    ensures
        matches == argon2_accepts(password@, password_hash@),
{
    match argon2_check(password, password_hash) {
        Ok(_) => true,
        Err(_) => false,
    }
}

} // verus!
