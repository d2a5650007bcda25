//! Secret hashing and token signing, both done by argon2.

use vstd::prelude::*;

verus! {

#[verifier::external_type_specification]
#[verifier::external_body]
pub struct ExArgon2Error(argon2::Error);

#[verifier::external_type_specification]
#[verifier::external_body]
pub struct ExPasswordHashError(argon2::password_hash::Error);

/// Whether the PHC string `hash` accepts `candidate` as its secret.
pub uninterp spec fn password_verifies(hash: Seq<char>, candidate: Seq<char>) -> bool;

/// The keyed argon2 digest of `msg` under secret `key` and salt `salt`.
pub uninterp spec fn session_mac(key: Seq<u8>, salt: Seq<char>, msg: Seq<char>) -> Seq<u8>;

/// Relies on argon2's `PasswordHasher::hash_password` (Argon2id, version
/// 0x13, 15000 KiB, two passes, one lane, a fresh random salt) and on
/// `PasswordVerifier::verify_password`, which recomputes the digest with the
/// salt and parameters written in the PHC string: the hash of a secret
/// verifies against that secret. With these fixed, valid parameters the
/// source fails only for a secret over `u32::MAX` bytes.
#[verifier::external_body]
pub(crate) fn compute_password_hash(password: &str) -> (r: Result<String, argon2::password_hash::Error>)
    ensures
        r is Ok ==> password_verifies(r->Ok_0@, password@),
        password@.len() <= crate::data_stores::MAX_HASHED_SECRET_LEN ==> r is Ok,
{
    let salt = argon2::password_hash::SaltString::generate(&mut rand::thread_rng());
    let params = argon2::Params::new(15000, 2, 1, None)?;
    let hasher = argon2::Argon2::new(argon2::Algorithm::Argon2id, argon2::Version::V0x13, params);
    let hash = argon2::PasswordHasher::hash_password(&hasher, password.as_bytes(), &salt)?;
    Ok(hash.to_string())
}

/// Relies on `argon2::password_hash::PasswordHash::new` and
/// `PasswordVerifier::verify_password`: whether `candidate` matches the PHC
/// string `expected`, a malformed string matching nothing.
#[verifier::external_body]
pub(crate) fn verify_password_hash(expected: &str, candidate: &str) -> (r: bool)
    ensures
        r == password_verifies(expected@, candidate@),
{
    match argon2::PasswordHash::new(expected) {
        Ok(h) => argon2::PasswordVerifier::verify_password(
            &argon2::Argon2::default(),
            candidate.as_bytes(),
            &h,
        ).is_ok(),
        Err(_) => false,
    }
}

/// Relies on `argon2::Argon2::new_with_secret` and `hash_password_into`
/// (Argon2id, version 0x13, 64 KiB, one pass, one lane, 32-byte output): a
/// digest of 32 bytes that depends on the secret, salt and message alone. The
/// source fails only on a secret or message over `u32::MAX` bytes or a salt
/// outside 8 to `u32::MAX` bytes.
#[verifier::external_body]
pub(crate) fn keyed_digest(key: &Vec<u8>, salt: &str, msg: &str) -> (r: Result<Vec<u8>, argon2::Error>)
    ensures
        r is Ok ==> r->Ok_0@ == session_mac(key@, salt@, msg@) && r->Ok_0@.len() == 32,
        key@.len() <= 0xFFFF_FFFF && 8 <= salt@.len() <= 0x3FFF_FFFF && msg@.len() <= 0x3FFF_FFFF
            ==> r is Ok,
{
    let params = argon2::Params::new(64, 1, 1, Some(32))?;
    let alg = argon2::Algorithm::Argon2id;
    let hasher = argon2::Argon2::new_with_secret(key.as_slice(), alg, argon2::Version::V0x13, params)?;
    let mut out = vec![0u8; 32];
    hasher.hash_password_into(msg.as_bytes(), salt.as_bytes(), &mut out)?;
    Ok(out)
}

} // verus!
