use vstd::prelude::*;

use argon2::password_hash::{rand_core::OsRng, PasswordHash, PasswordHasher, PasswordVerifier, SaltString};
use argon2::Argon2;

use crate::error::AppError;

verus! {

/// `argon2::password_hash::Error`, what the hasher fails with; opaque here.
#[verifier::external_type_specification]
#[verifier::external_body]
pub struct ExPasswordHashError(argon2::password_hash::Error);

/// The longest password, in characters, that is sure to be hashed: at most
/// 4 bytes a character keeps it within Argon2's limit of `0xFFFF_FFFF` bytes.
pub const MAX_PASSWORD_CHARS: usize = 0x3FFF_FFFF;

/// The PHC string that Argon2id with default parameters makes of a password
/// and a B64 salt, where hashing succeeds.
pub uninterp spec fn argon2_phc(password: Seq<char>, salt: Seq<char>) -> Option<Seq<char>>;

/// Whether `PasswordHash::new` reads a text as a PHC string.
pub uninterp spec fn parses_as_phc(text: Seq<char>) -> bool;

/// Whether `Argon2::default().verify_password` accepts a password for a PHC
/// string: the password hashes, with the string's own algorithm, version,
/// parameters and salt, to the string's output.
pub uninterp spec fn argon2_verification(password: Seq<char>, phc: Seq<char>) -> bool;

/// A character of the B64 alphabet (`A-Z`, `a-z`, `0-9`, `+`, `/`).
pub open spec fn is_b64_char(c: char) -> bool {
    ('A' <= c <= 'Z') || ('a' <= c <= 'z') || ('0' <= c <= '9') || c == '+' || c == '/'
}

/// The unpadded B64 text of 16 bytes: 22 characters of the alphabet, the last
/// of which carries only two bits (so it is `A`, `Q`, `g` or `w`).
pub open spec fn is_b64_of_16_bytes(text: Seq<char>) -> bool {
    &&& text.len() == 22
    &&& forall|i: int| 0 <= i < 22 ==> is_b64_char(#[trigger] text[i])
    &&& (text[21] == 'A' || text[21] == 'Q' || text[21] == 'g' || text[21] == 'w')
}

/// How every hash made here begins: the Argon2id identifier, version 19 and the
/// default parameters (19 MiB of memory, 2 passes, 1 lane).
pub open spec fn argon2id_prefix() -> Seq<char> {
    "$argon2id$v=19$m=19456,t=2,p=1$"@
}

/// The shape of a hash made with `salt`: the Argon2id prefix, the salt, a `$`,
/// and the 43 B64 characters of the 32-byte output.
pub open spec fn has_phc_shape(phc: Seq<char>, salt: Seq<char>) -> bool {
    let p = argon2id_prefix().len() as int;
    &&& phc.len() == p + salt.len() + 44
    &&& phc.subrange(0, p) == argon2id_prefix()
    &&& phc.subrange(p, p + salt.len()) == salt
    &&& phc[p + salt.len()] == '$'
}

/// A fresh random salt: `SaltString::generate` with the operating system's
/// random source, as B64 text. Which salt it is, is not stated (it is random);
/// it is the B64 encoding of 16 random bytes.
#[verifier::external_body]
fn random_salt() -> (salt: String)
    ensures
        is_b64_of_16_bytes(salt@),
{
    SaltString::generate(&mut OsRng).as_str().to_owned()
}

/// `Argon2::default().hash_password` of the password's bytes with the salt
/// read by `SaltString::from_b64`, written as a PHC string. The result is named
/// `argon2_phc`. With a salt of 16 bytes and a password within Argon2's length
/// limit it succeeds. What it gives reads back as a PHC string of the Argon2id
/// shape, and is accepted for the same password, since verifying re-hashes with
/// the string's own algorithm, version, parameters and salt.
#[verifier::external_body]
fn argon2_hash(password: &str, salt: &str) -> (phc: Result<String, argon2::password_hash::Error>)
    ensures
        phc is Ok <==> argon2_phc(password@, salt@) is Some,
        phc matches Ok(s) ==> s@ == argon2_phc(password@, salt@)->0,
        is_b64_of_16_bytes(salt@) && password@.len() <= MAX_PASSWORD_CHARS ==> phc is Ok,
        phc matches Ok(s) ==> parses_as_phc(s@) && argon2_verification(password@, s@)
            && has_phc_shape(s@, salt@),
{
    let salt = SaltString::from_b64(salt)?;
    match Argon2::default().hash_password(password.as_bytes(), &salt) {
        Ok(hash) => Ok(hash.to_string()),
        Err(e) => Err(e),
    }
}

/// `PasswordHash::new` of the stored string (named `parses_as_phc`), then
/// `Argon2::default().verify_password` of the password's bytes against it, as
/// a `bool` (named `argon2_verification`).
#[verifier::external_body]
fn argon2_verify(password: &str, phc: &str) -> (checked: Result<bool, argon2::password_hash::Error>)
    ensures
        checked is Ok <==> parses_as_phc(phc@),
        checked matches Ok(b) ==> b == argon2_verification(password@, phc@),
{
    let parsed = PasswordHash::new(phc)?;
    Ok(Argon2::default().verify_password(password.as_bytes(), &parsed).is_ok())
}

/// Hashes the password with a given B64 salt into a PHC string (Argon2id,
/// default parameters); a failure of the hasher is an internal error.
pub fn hash_password_with_salt(password: &str, salt: &str) -> (phc: Result<String, AppError>)
    ensures
        match argon2_phc(password@, salt@) {
            Some(expected) => phc matches Ok(s) && s@ == expected,
            None => phc matches Err(AppError::Internal(_)),
        },
        is_b64_of_16_bytes(salt@) && password@.len() <= MAX_PASSWORD_CHARS ==> phc is Ok,
        phc matches Ok(s) ==> parses_as_phc(s@) && argon2_verification(password@, s@)
            && has_phc_shape(s@, salt@),
{
    match argon2_hash(password, salt) {
        Ok(s) => Ok(s),
        Err(_) => Err(AppError::Internal(String::from_str("Password hashing error"))),
    }
}

/// Hashes the password in PHC format using Argon2id with a fresh random salt
/// of 16 bytes. Every password of up to `MAX_PASSWORD_CHARS` characters is
/// hashed; the hash is an Argon2id PHC string that `verify_password` reads
/// without error for any password and accepts for this one.
pub fn hash_password(password: &str) -> (phc: Result<String, AppError>)
    ensures
        password@.len() <= MAX_PASSWORD_CHARS ==> phc is Ok,
        phc matches Ok(s) ==> parses_as_phc(s@) && argon2_verification(password@, s@),
        phc matches Ok(s) ==> exists|salt: Seq<char>|
            is_b64_of_16_bytes(salt) && #[trigger] has_phc_shape(s@, salt),
        phc matches Err(e) ==> e is Internal,
{
    let salt = random_salt();
    hash_password_with_salt(password, salt.as_str())
}

/// Checks whether the plaintext password matches the PHC string from the
/// database: a string that is not in PHC format is an internal error, a wrong
/// password is `Ok(false)`.
pub fn verify_password(password: &str, password_hash: &str) -> (matched: Result<bool, AppError>)
    ensures
        parses_as_phc(password_hash@) ==> matched == Ok::<bool, AppError>(
            argon2_verification(password@, password_hash@),
        ),
        !parses_as_phc(password_hash@) ==> matched matches Err(AppError::Internal(_)),
{
    match argon2_verify(password, password_hash) {
        Ok(b) => Ok(b),
        Err(_) => Err(AppError::Internal(String::from_str("Invalid hash format in the database"))),
    }
}

} // verus!
