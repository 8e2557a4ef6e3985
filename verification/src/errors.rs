//! The failure taxonomy of the authentication path. Every failure is terminal
//! for the request it arose in; nothing here is retried.
use vstd::prelude::*;

verus! {

/// Why an authentication step failed.
///
/// `NotCached` covers both true revocation and cache eviction racing expiry:
/// the two are observably indistinguishable by design, since the cache entry,
/// not the signature, is authoritative.
#[derive(Clone, Copy, PartialEq, Eq, Structural, Debug)]
pub enum AuthError {
    /// No access-token cookie and no usable bearer header.
    MissingToken,
    /// The credential does not have the shape of a signed token.
    MalformedToken,
    /// The signature does not validate under the verification key.
    SignatureInvalid,
    /// The current time lies outside the token's validity window.
    Expired,
    /// The token's identifier has no entry in the token cache.
    NotCached,
    /// The user the token stands for no longer exists.
    UserNotFound,
    /// The signing key could not be used or the signing operation failed.
    SigningFailure,
    /// The token cache could not be reached. The in-process cache never
    /// reports this; it stands for a cache backed by a remote store.
    CacheUnavailable,
    /// The user store reported a failure.
    DatabaseError,
}

} // verus!
