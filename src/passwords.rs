use vstd::prelude::*;

verus! {

/// The PHC string that argon2 (default parameters) computes for a password
/// and a B64 salt; `None` when the salt or the hashing is refused.
pub uninterp spec fn argon2_digest(password: Seq<char>, salt: Seq<char>) -> Option<Seq<char>>;

/// Whether argon2 accepts a password against a PHC string; `None` when the
/// string does not parse as a password hash.
pub uninterp spec fn argon2_verdict(password: Seq<char>, digest: Seq<char>) -> Option<bool>;

/// Relies on `password_hash::SaltString::generate` over `rand_core::OsRng`:
/// a fresh random salt, B64-encoded. Nothing is promised of its value.
#[verifier::external_body]
pub(crate) fn fresh_salt() -> String {
    argon2::password_hash::SaltString::generate(&mut rand_core::OsRng).as_str().to_string()
}

/// Relies on `SaltString::from_b64` and argon2's `PasswordHasher::hash_password`
/// with `Argon2::default()`: the PHC string depends on the password and the salt alone.
#[verifier::external_body]
pub(crate) fn hash_with_salt(password: &str, salt: &str) -> (r: Option<String>)
    ensures
        match r {
            Some(d) => argon2_digest(password@, salt@) == Some(d@),
            None => argon2_digest(password@, salt@).is_none(),
        },
{
    let salt = argon2::password_hash::SaltString::from_b64(salt).ok()?;
    let hasher = argon2::Argon2::default();
    argon2::password_hash::PasswordHasher::hash_password(&hasher, password.as_bytes(), &salt)
        .ok()
        .map(|h| h.to_string())
}

/// Relies on `password_hash::PasswordHash::new` and argon2's
/// `PasswordVerifier::verify_password` with `Argon2::default()`: the verdict
/// depends on the password and the stored string alone.
#[verifier::external_body]
pub(crate) fn verify_password(password: &str, digest: &str) -> (r: Option<bool>)
    ensures
        r == argon2_verdict(password@, digest@),
{
    let parsed = argon2::password_hash::PasswordHash::new(digest).ok()?;
    let verifier = argon2::Argon2::default();
    Some(
        argon2::password_hash::PasswordVerifier::verify_password(
            &verifier,
            password.as_bytes(),
            &parsed,
        ).is_ok(),
    )
}

} // verus!
