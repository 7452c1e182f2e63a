//! Password hashing: a memory-hard, salted, one-way hash of a plaintext password
//! (Argon2 in the PHC string format) and its verification.

use vstd::prelude::*;

verus! {

/// Why hashing or verifying a password failed.
#[derive(Clone, Copy, Debug, PartialEq, Eq, Structural)]
pub enum HashError {
    /// The hash could not be computed.
    Hashing,
    /// The stored hash is no PHC string.
    MalformedHash,
}

/// The error of the `password-hash` crate. Only its presence is read.
#[verifier::external_type_specification]
#[verifier::external_body]
pub struct ExPhcError(argon2::password_hash::Error);

/// What checking `password` against the hash string `encoded` finds: `None`
/// where `encoded` does not parse as a PHC string, otherwise whether Argon2,
/// run over `password` with the salt and parameters that `encoded` carries,
/// gives the digest that `encoded` carries.
pub uninterp spec fn phc_verification(password: Seq<char>, encoded: Seq<char>) -> Option<bool>;

/// What a caller of [`verify_password`] gets for what the comparison found.
pub open spec fn verification_result(found: Option<bool>) -> Result<bool, HashError> {
    match found {
        Some(matches) => Ok(matches),
        None => Err(HashError::MalformedHash),
    }
}

/// The hash string that Argon2 makes of a password under a salt, the salt
/// given as B64 text: `None` where the hasher reports an error.
pub uninterp spec fn argon2_hashing(password: Seq<char>, salt: Seq<char>) -> Option<Seq<char>>;

/// The bytes that a salt stands for: what `Salt::from_b64` and then
/// `Salt::decode_b64` make of its text, `None` where either refuses it.
pub uninterp spec fn salt_decoding(salt: Seq<char>) -> Option<Seq<u8>>;

/// The longest password, in characters, for which hashing is owed: written
/// in bytes, none of these is beyond what the hasher takes.
pub const MAX_PASSWORD_LENGTH: usize = 0x3fff_ffff;

/// The least number of bytes in a salt that the hasher takes.
pub const MIN_SALT_BYTES: usize = 8;

/// Whether hashing a password under a salt is owed: the salt stands for
/// enough bytes, and the password is not too long.
pub open spec fn hashable(password: Seq<char>, salt: Seq<char>) -> bool {
    &&& salt_decoding(salt) matches Some(bytes)
    &&& bytes.len() >= MIN_SALT_BYTES
    &&& password.len() <= MAX_PASSWORD_LENGTH
}

/// What a caller of [`hash_with_salt`] gets for what the hasher made.
pub open spec fn hashing_result(made: Option<Seq<char>>) -> Result<Seq<char>, HashError> {
    match made {
        Some(encoded) => Ok(encoded),
        None => Err(HashError::Hashing),
    }
}

/// The mathematical value of the result of hashing.
pub open spec fn hash_view(r: Result<String, HashError>) -> Result<Seq<char>, HashError> {
    match r {
        Ok(encoded) => Ok(encoded@),
        Err(e) => Err(e),
    }
}

/// `SaltString::generate` over the thread's random generator, as text:
/// sixteen random bytes in B64. Which bytes they are is left open; that the
/// text decodes, and to sixteen bytes, is what the crate encodes there.
#[verifier::external_body]
fn fresh_salt() -> (drawn: String)
    ensures
        salt_decoding(drawn@) is Some,
        salt_decoding(drawn@)->Some_0.len() == 16,
{
    String::from(argon2::password_hash::SaltString::generate(rand::thread_rng()).as_str())
}

/// `Salt::from_b64` on the salt, then `PasswordHash::generate` with the default
/// Argon2 (Argon2id, version 19), printed as a PHC string. The result depends
/// on the password and the salt alone. The string carries the salt, the
/// parameters and the digest, so checking the same password against it
/// recomputes that digest: this is what the third clause claims. The hasher
/// refuses a salt that does not decode or decodes to fewer than eight bytes,
/// and a password of more than `0xFFFF_FFFF` bytes, and with its default
/// parameters nothing else: this is what the last clause claims.
#[verifier::external_body]
fn argon2_phc(password: &str, salt: &str) -> (outcome: Result<String, argon2::password_hash::Error>)
    ensures
        outcome matches Ok(encoded) ==> argon2_hashing(password@, salt@) == Some(encoded@),
        outcome is Err ==> argon2_hashing(password@, salt@) is None,
        outcome matches Ok(encoded) ==> phc_verification(password@, encoded@) == Some(true),
        hashable(password@, salt@) ==> outcome is Ok,
{
    match argon2::password_hash::Salt::from_b64(salt) {
        Ok(salt) => match argon2::PasswordHash::generate(argon2::Argon2::default(), password, salt) {
            Ok(hash) => Ok(hash.to_string()),
            Err(e) => Err(e),
        },
        Err(e) => Err(e),
    }
}

/// `PasswordHash::new` on `encoded`, then `PasswordHash::verify_password` with
/// the default Argon2 on `password`. An `Err` is the parser's; `Ok` tells
/// whether the recomputed digest equals the stored one (the crate reports every
/// failure of the comparison as a mismatch). The result depends on the two
/// texts alone. The work and the memory are what the parameters in `encoded`
/// ask for.
#[verifier::external_body]
fn check_phc(password: &str, encoded: &str) -> (outcome: Result<bool, argon2::password_hash::Error>)
    ensures
        outcome matches Ok(matches) ==> phc_verification(password@, encoded@) == Some(matches),
        outcome is Err ==> phc_verification(password@, encoded@) is None,
{
    match argon2::PasswordHash::new(encoded) {
        Ok(parsed) => Ok(parsed.verify_password(&[&argon2::Argon2::default()], password).is_ok()),
        Err(e) => Err(e),
    }
}

/// Turns the outcome of the hashing primitive into the library's result: the
/// hash string as it is, any failure as [`HashError::Hashing`].
pub fn hashed(outcome: Result<String, argon2::password_hash::Error>) -> (r: Result<
    String,
    HashError,
>)
    ensures
        outcome matches Ok(encoded) ==> r == Ok::<String, HashError>(encoded),
        outcome is Err ==> r == Err::<String, HashError>(HashError::Hashing),
{
    match outcome {
        Ok(encoded) => Ok(encoded),
        Err(_) => Err(HashError::Hashing),
    }
}

/// Turns the outcome of the checking primitive into the library's result: a
/// mismatch is `Ok(false)`, not an error; a hash that does not parse is
/// [`HashError::MalformedHash`].
pub fn checked(outcome: Result<bool, argon2::password_hash::Error>) -> (r: Result<bool, HashError>)
    ensures
        outcome matches Ok(matches) ==> r == Ok::<bool, HashError>(matches),
        outcome is Err ==> r == Err::<bool, HashError>(HashError::MalformedHash),
{
    match outcome {
        Ok(matches) => Ok(matches),
        Err(_) => Err(HashError::MalformedHash),
    }
}

/// Hashes `password` under the salt `salt`, given as B64 text, and returns
/// the self-describing hash string.
///
/// The result is what Argon2 makes of the two, and a string that comes back
/// verifies against `password`. A salt of eight bytes or more and a password
/// within the limit always give a hash. A salt that is no salt, or any other
/// failure of the hasher, is [`HashError::Hashing`].
pub fn hash_with_salt(password: &str, salt: &str) -> (r: Result<String, HashError>)
    ensures
        hash_view(r) == hashing_result(argon2_hashing(password@, salt@)),
        hashable(password@, salt@) ==> r is Ok,
        r matches Ok(encoded) ==> verification_result(phc_verification(password@, encoded@))
            == Ok::<bool, HashError>(true),
{
    hashed(argon2_phc(password, salt))
}

/// Hashes `password` under a salt drawn afresh for this call and returns the
/// self-describing hash string.
///
/// Whatever the password holds, there is a hash, as long as the password is
/// within the limit of length. The result is what Argon2 makes of the
/// password under some salt, and whatever string comes back verifies against
/// `password`. The only failure is [`HashError::Hashing`].
pub fn hash_password(password: &str) -> (r: Result<String, HashError>)
    ensures
        password@.len() <= MAX_PASSWORD_LENGTH ==> r is Ok,
        exists|salt: Seq<char>|
            hash_view(r) == hashing_result(#[trigger] argon2_hashing(password@, salt)),
        r matches Ok(encoded) ==> verification_result(phc_verification(password@, encoded@))
            == Ok::<bool, HashError>(true),
        r matches Err(e) ==> e == HashError::Hashing,
{
    let salt = fresh_salt();
    hash_with_salt(password, salt.as_str())
}

/// Checks `password` against the hash string `encoded`, with the parameters and
/// salt that `encoded` carries.
///
/// A password that does not match is `Ok(false)`; `encoded` not being a PHC
/// string is [`HashError::MalformedHash`].
pub fn verify_password(password: &str, encoded: &str) -> (r: Result<bool, HashError>)
    ensures
        r == verification_result(phc_verification(password@, encoded@)),
{
    checked(check_phc(password, encoded))
}

} // verus!
