//! Password checking and hashing, delegated to the pwhash crate's bcrypt.
//! What `verify` returns is named here; a fresh hash is salted at random, so
//! nothing is promised of its text beyond that it verifies its password.
use vstd::prelude::*;

verus! {

/// What pwhash's `bcrypt::verify` returns: whether the password matches the
/// hash. The check recomputes the hash from the password and the hash's own
/// salt, so the result depends on the two arguments alone.
pub uninterp spec fn bcrypt_verifies(password: Seq<char>, hash: Seq<char>) -> bool;

/// Relies on pwhash's `bcrypt::verify`.
#[verifier::external_body]
pub fn verify_password(password: &str, hash: &str) -> (r: bool)
    ensures
        r == bcrypt_verifies(password@, hash@),
{
    pwhash::bcrypt::verify(password, hash)
}

/// Relies on pwhash's `bcrypt::hash`: a fresh hash, salted at random,
/// verifies the password it was made from; hashing fails only on unusable
/// input, never for a plain password.
#[verifier::external_body]
fn bcrypt_hash(password: &str) -> (r: Option<String>)
    ensures
        r matches Some(h) ==> bcrypt_verifies(password@, h@),
{
    pwhash::bcrypt::hash(password).ok()
}

/// Hashes a password for storage. The hash verifies the password it was
/// made from; nothing else is known of its text, since the salt is random.
pub fn hash_password(password: &str) -> (r: Option<String>)
    ensures
        r matches Some(h) ==> bcrypt_verifies(password@, h@),
{
    bcrypt_hash(password)
}

} // verus!
