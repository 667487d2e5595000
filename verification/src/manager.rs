//! The storage contract: an abstract `put`/`get`/`delete` over
//! `(key -> (response, policy))`. The engine's bookkeeping proofs rest on
//! the contracts stated here; a backend that implements them truthfully
//! gets the engine's guarantees.

use vstd::prelude::*;

use http_cache_semantics::CachePolicy;

use crate::error::Error;
use crate::response::HttpResponse;
use crate::response::ResponseView;

verus! {

/// A stored cache entry: the response and the policy persisted with it.
pub struct StoredView {
    /// The stored response.
    pub response: ResponseView,
    /// The policy the evaluator produced for that response.
    pub policy: CachePolicy,
}

/// A trait providing methods for storing, reading, and removing cache
/// records, keyed by cache key.
///
/// Every stored response has status 200, is well formed, and carries a URL
/// with a host: `put` demands it and the engine maintains it, so `get`
/// promises it back.
pub trait CacheManager: Sized {
    /// The stored entries, as consistent with the `put`s and `delete`s the
    /// caller has observed.
    open spec fn store(&self) -> Map<Seq<char>, StoredView> {
        Map::empty()
    }

    /// Attempts to pull a cached response and related policy from cache.
    fn get(&self, cache_key: &str) -> (r: Result<Option<(HttpResponse, CachePolicy)>, Error>)
        ensures
            match r {
                Ok(Some((res, policy))) => {
                    &&& self.store().contains_key(cache_key@)
                    &&& self.store()[cache_key@].response == res@
                    &&& self.store()[cache_key@].policy == policy
                    &&& res.wf()
                    &&& res@.parts.status == 200
                    &&& res@.parts.url.host is Some
                },
                Ok(None) => !self.store().contains_key(cache_key@),
                Err(_) => true,
            },
    ;

    /// Attempts to cache a response and related policy, returning the
    /// response (possibly re-wrapped) for the caller to forward.
    fn put(&mut self, cache_key: String, res: HttpResponse, policy: CachePolicy) -> (r: Result<
        HttpResponse,
        Error,
    >)
        requires
            res.wf(),
            res@.parts.status == 200,
            res@.parts.url.host is Some,
        ensures
            match r {
                Ok(out) => {
                    &&& final(self).store() == old(self).store().insert(
                        cache_key@,
                        StoredView { response: res@, policy },
                    )
                    &&& out.wf()
                    &&& out@ == res@
                },
                Err(_) => final(self).store() == old(self).store() || final(self).store() == old(
                    self,
                ).store().insert(cache_key@, StoredView { response: res@, policy }),
            },
    ;

    /// Removes a record from cache. Idempotent: absence is not an error.
    fn delete(&mut self, cache_key: &str)
        ensures
            final(self).store() == old(self).store().remove(cache_key@),
    ;
}

} // verus!
