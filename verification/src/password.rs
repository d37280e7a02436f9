//! Password hashes in the PHC string format, made and checked by Argon2.

use argon2::password_hash::{PasswordHash, PasswordHasher, PasswordVerifier, SaltString};
use argon2::Argon2;
use vstd::prelude::*;

verus! {

/// Whether `Argon2::verify_password` finds that a PHC string is the hash of a
/// password, or `None` where `PasswordHash::new` reads no PHC string.
pub uninterp spec fn password_accepted(hash: Seq<char>, password: Seq<char>) -> Option<bool>;

/// `SaltString::generate` on the thread's generator: a random salt, of which
/// nothing is known in advance, in its text form.
#[verifier::external_body]
pub(crate) fn random_salt() -> String {
    SaltString::generate(&mut rand::thread_rng()).as_str().to_owned()
}

/// `Argon2::hash_password` with the default parameters, on a password and a
/// salt in its text form. It fails on a text that is no salt, and may fail
/// otherwise. A hash that comes back is one that the password is accepted
/// against, as `argon2` documents.
#[verifier::external_body]
pub(crate) fn hash_password(password: &str, salt: &str) -> (hash: Option<String>)
    ensures
        hash matches Some(phc) ==> password_accepted(phc@, password@) == Some(true),
{
    let salt = SaltString::from_b64(salt).ok()?;
    let hash = Argon2::default().hash_password(password.as_bytes(), &salt).ok()?;
    Some(hash.to_string())
}

/// `PasswordHash::new` on the stored text, then `Argon2::verify_password`.
#[verifier::external_body]
pub(crate) fn verify_password(hash: &str, password: &str) -> (accepted: Option<bool>)
    ensures
        accepted == password_accepted(hash@, password@),
{
    let parsed = PasswordHash::new(hash).ok()?;
    Some(Argon2::default().verify_password(password.as_bytes(), &parsed).is_ok())
}

} // verus!
