use crate::errors::ApiError;
use vstd::prelude::*;

verus! {

/// What checking `password` against the stored PHC string `hash` yields:
/// `None` when `hash` does not parse, else whether the password matches.
pub uninterp spec fn argon2_check(password: Seq<char>, hash: Seq<char>) -> Option<bool>;

/// Relies on argon2's `PasswordHasher::hash_password` with `Argon2::default()`
/// and a fresh salt from the OS random source: the PHC string it returns
/// embeds salt and parameters, and verifies against the same password.
#[verifier::external_body]
fn argon2_hash(password: &str) -> (r: Option<String>)
    ensures
        r matches Some(h) ==> argon2_check(password@, h@) == Some(true),
{
    let salt = argon2::password_hash::SaltString::generate(&mut argon2::password_hash::rand_core::OsRng);
    let argon2 = argon2::Argon2::default();
    argon2::password_hash::PasswordHasher::hash_password(&argon2, password.as_bytes(), &salt)
        .ok()
        .map(|h| h.to_string())
}

/// Relies on `argon2::PasswordHash::new` to parse the stored string and on
/// `PasswordVerifier::verify_password` with `Argon2::default()` to compare.
#[verifier::external_body]
fn argon2_verify(password: &str, hash: &str) -> (r: Option<bool>)
    ensures
        r == argon2_check(password@, hash@),
{
    let parsed = argon2::PasswordHash::new(hash).ok()?;
    let argon2 = argon2::Argon2::default();
    Some(argon2::password_hash::PasswordVerifier::verify_password(&argon2, password.as_bytes(), &parsed).is_ok())
}

/// `password` verifies against the stored `hash`.
pub open spec fn password_verifies(password: Seq<char>, hash: Seq<char>) -> bool {
    argon2_check(password, hash) == Some(true)
}

/// Hashes `password` with a fresh random salt. The result verifies against
/// the same password; a failure of the primitive is `HashError`.
pub fn hash_password(password: &str) -> (r: Result<String, ApiError>)
    ensures
        r matches Ok(h) ==> password_verifies(password@, h@),
        r matches Err(e) ==> e is HashError,
{
    match argon2_hash(password) {
        Some(h) => Ok(h),
        None => Err(ApiError::HashError),
    }
}

/// Whether `password` matches the stored `hash`. Fails closed: a hash that
/// does not parse gives `false`.
pub fn verify_password(password: &str, hash: &str) -> (r: bool)
    ensures
        r == password_verifies(password@, hash@),
{
    match argon2_verify(password, hash) {
        Some(ok) => ok,
        None => false,
    }
}

} // verus!
