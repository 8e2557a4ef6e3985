//! The token cache: the process-wide registry of currently valid token
//! identifiers, and the single source of truth for revocation. A token whose
//! identifier is absent here is invalid no matter what its signature says.
//!
//! The storage is moka's concurrent map, so lookups and updates are safe
//! under concurrent use; its operations are trusted against moka's source and
//! named by `cache_entries`. The cache is built unbounded, so nothing is
//! evicted behind the contracts' back; entries past their token's expiry are
//! dead weight only, since every verification path checks expiry itself.
use vstd::prelude::*;

use crate::jwt::TokenDetails;

verus! {

/// The declared shape of moka's synchronous cache.
#[verifier::external_type_specification]
#[verifier::external_body]
#[verifier::reject_recursive_types(K)]
#[verifier::reject_recursive_types(V)]
#[verifier::reject_recursive_types(S)]
pub struct ExMokaCache<K, V, S>(moka::sync::Cache<K, V, S>);

/// The process-wide map from token identifier to the details cached for it.
pub struct TokenCache {
    inner: moka::sync::Cache<u128, TokenDetails>,
}

/// What the cache holds: the map from token identifier to cached details.
pub uninterp spec fn cache_entries(c: TokenCache) -> Map<u128, TokenDetails>;

/// A newly built cache holds nothing.
pub open spec fn fresh_cache_is_empty(c: TokenCache) -> bool {
    cache_entries(c) == Map::<u128, TokenDetails>::empty()
}

impl TokenCache {
    /// Relies on moka's `Cache::builder().build()`: a new cache without a
    /// capacity bound or a time policy holds nothing and never evicts.
    #[verifier::external_body]
    pub fn new() -> (fresh: TokenCache)
        ensures
            fresh_cache_is_empty(fresh),
    {
        TokenCache { inner: moka::sync::Cache::builder().build() }
    }

    /// Relies on moka's `Cache::insert`: the entry is added under its key,
    /// and no other entry changes.
    #[verifier::external_body]
    pub fn insert(&mut self, token_uuid: u128, details: TokenDetails)
        ensures
            cache_entries(*final(self)) == cache_entries(*old(self)).insert(token_uuid, details),
    {
        self.inner.insert(token_uuid, details);
    }

    /// Relies on moka's `Cache::get`: the value cached under the key is
    /// handed back as a clone, or nothing when the key is absent.
    #[verifier::external_body]
    pub fn get(&self, token_uuid: u128) -> (r: Option<TokenDetails>)
        ensures
            match r {
                Some(d) => cache_entries(*self).contains_key(token_uuid) && d == cache_entries(
                    *self,
                )[token_uuid],
                None => !cache_entries(*self).contains_key(token_uuid),
            },
    {
        self.inner.get(&token_uuid)
    }

    /// Relies on moka's `Cache::remove`: the entry under the key is taken
    /// out and handed back, and no other entry changes.
    #[verifier::external_body]
    pub fn remove(&mut self, token_uuid: u128) -> (r: Option<TokenDetails>)
        ensures
            cache_entries(*final(self)) == cache_entries(*old(self)).remove(token_uuid),
            match r {
                Some(d) => cache_entries(*old(self)).contains_key(token_uuid) && d
                    == cache_entries(*old(self))[token_uuid],
                None => !cache_entries(*old(self)).contains_key(token_uuid),
            },
    {
        self.inner.remove(&token_uuid)
    }
}

} // verus!
