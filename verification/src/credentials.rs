//! The credential store: hashes and verifies passwords with a memory-hard
//! hashing function. Plaintext is never stored; a password leaves this
//! module only as an opaque, self-describing digest string with a per-record
//! random salt.

use vstd::prelude::*;

verus! {

/// Whether `digest` is a well-formed, self-describing password digest.
/// Names the outcome of parsing it with `argon2::PasswordHash::new`, which
/// depends on the digest string alone.
pub uninterp spec fn digest_wf(digest: Seq<char>) -> bool;

/// Whether the memory-hard verifier accepts `password` against `digest`.
/// Names the outcome of argon2's `verify_password`, which recomputes the
/// hash from the salt and parameters carried inside the digest, so it is a
/// function of the two strings alone.
pub uninterp spec fn digest_matches(password: Seq<char>, digest: Seq<char>) -> bool;

/// Relies on argon2's `PasswordHasher::hash_password`, which hashes with a
/// freshly generated random salt. Whatever salt was drawn, the returned
/// digest is a well-formed PHC string, and the crate's own verifier accepts
/// the same password against it.
#[verifier::external_body]
pub(crate) fn hash_password(password: &String) -> (r: Result<String, ()>)
    ensures
        r matches Ok(d) ==> digest_wf(d@) && digest_matches(password@, d@),
{
    let hasher = argon2::Argon2::default();
    match argon2::PasswordHasher::hash_password(&hasher, password.as_bytes()) {
        Ok(digest) => Ok(digest.to_string()),
        Err(_) => Err(()),
    }
}

/// Relies on `argon2::PasswordHash::new` (a malformed digest is rejected
/// there, and only there) and on argon2's `verify_password` (a mismatch is
/// reported as an error, which this wrapper folds into `false`).
#[verifier::external_body]
pub(crate) fn verify_password(password: &String, digest: &String) -> (r: Result<bool, ()>)
    ensures
        r is Err <==> !digest_wf(digest@),
        r matches Ok(b) ==> b == digest_matches(password@, digest@),
{
    let parsed = match argon2::PasswordHash::new(digest.as_str()) {
        Ok(p) => p,
        Err(_) => {
            return Err(());
        },
    };
    let verifier = argon2::Argon2::default();
    Ok(argon2::PasswordVerifier::verify_password(&verifier, password.as_bytes(), &parsed).is_ok())
}

} // verus!
