//! Password hashing with Argon2id, and the key the session cookie is signed with.

use argon2::password_hash::rand_core::OsRng;
use argon2::password_hash::PasswordHasher;
use argon2::password_hash::Salt;
use argon2::password_hash::SaltString;
use argon2::Argon2;
use vstd::prelude::*;

verus! {

/// `argon2::password_hash::Error`, what hashing a password can fail with.
#[verifier::external_type_specification]
#[verifier::external_body]
pub struct ExPasswordHashError(argon2::password_hash::Error);

/// `argon2::Error`, what filling a buffer with key material can fail with.
#[verifier::external_type_specification]
#[verifier::external_body]
pub struct ExArgon2Error(argon2::Error);

/// A password could not be hashed.
#[derive(Debug)]
pub struct PasswordError {
    pub cause: argon2::password_hash::Error,
}

/// The Argon2id digest of a password under a salt, with the default parameters
/// of the `argon2` crate; `None` where the crate refuses the inputs.
pub uninterp spec fn argon2id_digest(password: Seq<char>, salt: Seq<u8>) -> Option<Seq<u8>>;

/// The Argon2id key material of the given length for a passphrase under a
/// salt, with the default parameters of the `argon2` crate; `None` where the
/// crate refuses the inputs.
pub uninterp spec fn argon2id_key(phrase: Seq<char>, salt: Seq<char>, len: nat) -> Option<Seq<u8>>;

/// `Argon2::default().hash_password`, on a salt re-encoded with
/// `SaltString::encode_b64`: the digest depends on the password and the salt
/// alone, and so does whether there is one.  A salt of fewer than three bytes
/// encodes to a string that the crate's own conversion rejects by panicking.
#[verifier::external_body]
fn argon2id(password: &str, salt: &[u8]) -> (res: Result<Vec<u8>, argon2::password_hash::Error>)
    requires
        salt@.len() >= 3,
    ensures
        match res {
            Ok(digest) => argon2id_digest(password@, salt@) == Some(digest@),
            Err(_) => argon2id_digest(password@, salt@) is None,
        },
{
    let salt = SaltString::encode_b64(salt)?;
    let hash = Argon2::default().hash_password(password.as_bytes(), &salt)?;
    hash.hash.map(|out| out.as_bytes().to_vec()).ok_or(argon2::password_hash::Error::Crypto)
}

/// `SaltString::generate` with the operating system's generator, decoded back
/// to the sixteen random bytes it was made from.  Generating returns a salt
/// and no error, and decoding what was just encoded does not fail, so there
/// is always a salt.
#[verifier::external_body]
fn fresh_salt() -> (res: Result<Vec<u8>, argon2::password_hash::Error>)
    ensures
        res is Ok,
        res matches Ok(salt) ==> salt@.len() == 16,
{
    let salt = SaltString::generate(&mut OsRng);
    let mut bytes = [0u8; Salt::MAX_LENGTH];
    Ok(salt.decode_b64(&mut bytes)?.to_vec())
}

/// `Argon2::default().hash_password_into`, on a fresh buffer of `len` bytes:
/// the buffer keeps its length, and what fills it depends on the passphrase,
/// the salt and the length alone.
#[verifier::external_body]
fn argon2id_fill(passphrase: &str, salt: &str, len: usize) -> (res: Result<Vec<u8>, argon2::Error>)
    ensures
        match res {
            Ok(key) => argon2id_key(passphrase@, salt@, len as nat) == Some(key@) && key@.len()
                == len,
            Err(_) => argon2id_key(passphrase@, salt@, len as nat) is None,
        },
{
    let mut key = vec![0u8; len];
    Argon2::default().hash_password_into(passphrase.as_bytes(), salt.as_bytes(), &mut key)?;
    Ok(key)
}

/// True when the two byte strings are the same.
pub fn digest_matches(computed: &[u8], expected: &[u8]) -> (same: bool)
    ensures
        same == (computed@ == expected@),
{
    if computed.len() != expected.len() {
        return false;
    }
    let mut i: usize = 0;
    while i < computed.len()
        invariant
            computed@.len() == expected@.len(),
            i <= computed@.len(),
            forall|j: int| 0 <= j < i ==> computed@[j] == expected@[j],
        decreases computed@.len() - i,
    {
        if computed[i] != expected[i] {
            return false;
        }
        i += 1;
    }
    assert(computed@ =~= expected@);
    true
}

/// Hashes a password under a fresh random salt and returns digest and salt:
/// what [`hash_password_under`] gives for the sixteen bytes that were drawn.
/// It fails only where the password has no digest under them.
pub fn hash_password(password: &str) -> (res: Result<(Vec<u8>, Vec<u8>), PasswordError>)
    ensures
        res matches Ok((hash, salt)) ==> salt@.len() == 16 && argon2id_digest(password@, salt@)
            == Some(hash@),
        exists|salt: Seq<u8>| #[trigger] is_hash_outcome(password@, salt, res),
{
    let salt = match fresh_salt() {
        Ok(salt) => salt,
        Err(cause) => {
            return Err(PasswordError { cause });
        },
    };
    let ghost drawn = salt@;
    let res = hash_password_under(password, salt);
    assert(is_hash_outcome(password@, drawn, res));
    res
}

/// What hashing a password under a given salt gives: the digest with the
/// salt, where the password has a digest under that salt.
pub open spec fn hashed_under(password: Seq<char>, salt: Seq<u8>) -> Option<(Seq<u8>, Seq<u8>)> {
    match argon2id_digest(password, salt) {
        Some(digest) => Some((digest, salt)),
        None => None,
    }
}

/// True when `res` is what hashing the password comes to for the salt that
/// was drawn: sixteen bytes were drawn, and `res` is the digest under them
/// with them, or an error where the password has no digest under them.
pub open spec fn is_hash_outcome(
    password: Seq<char>,
    salt: Seq<u8>,
    res: Result<(Vec<u8>, Vec<u8>), PasswordError>,
) -> bool {
    salt.len() == 16 && match hashed_under(password, salt) {
        Some((digest, kept)) => res matches Ok((hash, stored)) && hash@ == digest && stored@
            == kept,
        None => res is Err,
    }
}

/// True when hashing the password comes to nothing for the salt that was
/// drawn: sixteen bytes under which the password has no digest.
pub open spec fn hashing_fails(password: Seq<char>, salt: Seq<u8>) -> bool {
    salt.len() == 16 && argon2id_digest(password, salt) is None
}

/// Hashes a password under the salt given and returns digest and salt.  Fails
/// exactly when the password cannot be hashed under that salt.
pub fn hash_password_under(
    password: &str,
    salt: Vec<u8>,
) -> (res: Result<(Vec<u8>, Vec<u8>), PasswordError>)
    requires
        salt@.len() >= 3,
    ensures
        match hashed_under(password@, salt@) {
            Some((digest, kept)) => res matches Ok((hash, stored)) && hash@ == digest && stored@
                == kept,
            None => res is Err,
        },
{
    match argon2id(password, salt.as_slice()) {
        Ok(hash) => Ok((hash, salt)),
        Err(cause) => Err(PasswordError { cause }),
    }
}

/// Recomputes the digest of `password` under `salt` and compares it with
/// `expected_hash`.  Fails exactly when the password cannot be hashed under
/// that salt.
pub fn verify_password(
    password: &str,
    expected_hash: &[u8],
    salt: &[u8],
) -> (res: Result<bool, PasswordError>)
    requires
        salt@.len() >= 3,
    ensures
        match argon2id_digest(password@, salt@) {
            Some(digest) => res matches Ok(good) && good == (digest == expected_hash@),
            None => res is Err,
        },
{
    match argon2id(password, salt) {
        Ok(computed) => Ok(digest_matches(computed.as_slice(), expected_hash)),
        Err(cause) => Err(PasswordError { cause }),
    }
}

/// The salt under which the cookie key is derived.
pub open spec fn cookie_key_salt() -> Seq<char> {
    "hdu2025_software_eng_thesis_mgmt/backend"@
}

/// Derives the 64 bytes of key material that sign the session cookie from a
/// passphrase; `None` where the passphrase cannot be hashed.
pub fn derive_cookie_key(passphrase: &str) -> (res: Option<Vec<u8>>)
    ensures
        match argon2id_key(passphrase@, cookie_key_salt(), 64) {
            Some(key) => res matches Some(material) && material@ == key && material@.len() == 64,
            None => res is None,
        },
{
    match argon2id_fill(passphrase, "hdu2025_software_eng_thesis_mgmt/backend", 64) {
        Ok(key) => Some(key),
        Err(_) => None,
    }
}

} // verus!
