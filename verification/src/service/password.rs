//! Password hashing and checking with Argon2id, through the argon2 crate.
use argon2::password_hash::{PasswordHasher, PasswordVerifier};
use vstd::prelude::*;
use vstd::string::StringSliceAdditionalSpecFns;

verus! {

/// Whether `Argon2::default().verify_password` accepts `password` (its bytes)
/// against the PHC string `phc` once `PasswordHash::new` has parsed it; false
/// where the string does not parse.
pub uninterp spec fn argon2_verifies(password: Seq<u8>, phc: Seq<char>) -> bool;

/// The longest password, in bytes, that argon2 hashes (`argon2::MAX_PWD_LEN`).
pub const MAX_PASSWORD_BYTES: u64 = 0xFFFF_FFFF;

/// How every PHC string written by `Argon2::default()` begins: the algorithm
/// (argon2id), the version (19) and the default parameters.
pub open spec fn argon2_phc_prefix() -> Seq<char> {
    "$argon2id$v=19$m=19456,t=2,p=1$"@
}

/// Hashes `password` with `Argon2::default()` (Argon2id v19, default
/// parameters) and a fresh salt from `SaltString::generate(&mut OsRng)`, and
/// returns the PHC string; `None` where hashing fails.
///
/// Claimed:
/// - a returned string verifies against the same password, as the argon2
///   documentation shows (`verify_password` recomputes the hash with the salt
///   and parameters read from the string);
/// - hashing succeeds for every password of at most `MAX_PASSWORD_BYTES`
///   bytes: with the default parameters and a generated 16-byte salt, the
///   password length is the only input check that can fail;
/// - the string starts with `argon2_phc_prefix()`: `PasswordHash`'s `Display`
///   writes the algorithm identifier, `v=` and the version, then the default
///   parameters `m=19456,t=2,p=1`, before the salt and the hash.
/// The salt is random, so the rest of the string is not stated. `OsRng`
/// panics where the operating system cannot supply random bytes.
#[verifier::external_body]
pub(crate) fn hash_password(password: &str) -> (hash: Option<String>)
    ensures
        hash matches Some(h) ==> argon2_verifies(password.spec_bytes(), h@),
        hash matches Some(h) ==> argon2_phc_prefix().is_prefix_of(h@),
        password.spec_bytes().len() <= MAX_PASSWORD_BYTES ==> hash is Some,
{
    let salt = argon2::password_hash::SaltString::generate(
        &mut argon2::password_hash::rand_core::OsRng,
    );
    match argon2::Argon2::default().hash_password(password.as_bytes(), &salt) {
        Ok(hash) => Some(hash.to_string()),
        Err(_) => None,
    }
}

/// Parses `password_hash` with `PasswordHash::new` and checks `password`
/// against it with `Argon2::default().verify_password`.
///
/// Claimed: the result is `argon2_verifies` of the password's bytes and the
/// stored string; both calls depend on their arguments alone.
#[verifier::external_body]
pub(crate) fn verify_password(password: &str, password_hash: &str) -> (matched: bool)
    ensures
        matched == argon2_verifies(password.spec_bytes(), password_hash@),
{
    match argon2::password_hash::PasswordHash::new(password_hash) {
        Ok(parsed) => match argon2::Argon2::default().verify_password(password.as_bytes(), &parsed) {
            Ok(()) => true,
            Err(_) => false,
        },
        Err(_) => false,
    }
}

} // verus!
