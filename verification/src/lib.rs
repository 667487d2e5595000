//! An HTTP caching middleware engine.
//!
//! The engine decides, per request, whether to serve a stored response,
//! conditionally revalidate one, fetch fresh, or refuse service, following
//! the caching rules of the HTTP standard as surfaced through a
//! cache-semantics policy helper. Storage backends and client adapters are
//! abstract: they are described by the [`CacheManager`] and [`Middleware`]
//! traits, whose contracts the engine's own proofs rest on.

pub mod boundary;
pub mod cache;
pub mod error;
pub mod headers;
pub mod manager;
pub mod middleware;
pub mod options;
pub mod response;
pub mod text;

use vstd::prelude::*;

pub use boundary::Freshness;
pub use boundary::Revalidated;
pub use cache::HttpCache;
pub use cache::gateway_timeout_body;
pub use cache::only_deletions;
pub use cache::response_storable;
pub use cache::spec_request_cacheable;
pub use cache::spec_response_storable;
pub use cache::unchanged_except;
pub use error::Error;
pub use headers::Headers;
pub use manager::CacheManager;
pub use manager::StoredView;
pub use middleware::Middleware;
pub use middleware::RequestParts;
pub use middleware::RequestView;
pub use options::CacheBust;
pub use options::CacheKey;
pub use options::CacheModeFn;
pub use options::HttpCacheOptions;
pub use options::default_key;
pub use response::Body;
pub use response::HttpResponse;
pub use response::HttpUrl;
pub use response::HttpVersion;
pub use response::Parts;
pub use response::PartsView;
pub use response::ResponseView;
pub use response::UrlView;
pub use response::warning_value;

verus! {

/// `x-cache` header: the value will be HIT if the response was served from
/// cache, MISS if not.
pub const XCACHE: &'static str = "x-cache";

/// `x-cache-lookup` header: the value will be HIT if a response existed in
/// cache, MISS if not.
pub const XCACHELOOKUP: &'static str = "x-cache-lookup";

/// The caching behaviour of the engine, resolved once per request.
#[derive(Debug, Default, Copy, Clone, PartialEq, Eq, Structural)]
pub enum CacheMode {
    /// Will inspect the HTTP cache on the way to the network.
    /// If there is a fresh response it will be used.
    /// If there is a stale response a conditional request will be created,
    /// and a normal request otherwise.
    /// It then updates the HTTP cache with the response.
    /// If the revalidation request fails (for example, on a 500 or if you
    /// are offline), the stale response will be returned.
    #[default]
    Default,
    /// Behaves as if there is no HTTP cache at all.
    NoStore,
    /// Behaves as if there is no HTTP cache on the way to the network.
    /// Ergo, it creates a normal request and updates the HTTP cache with
    /// the response.
    Reload,
    /// Creates a conditional request if there is a response in the HTTP
    /// cache and a normal request otherwise. It then updates the HTTP cache
    /// with the response.
    NoCache,
    /// Uses any response in the HTTP cache matching the request, not paying
    /// attention to staleness. If there was no response, it creates a
    /// normal request and updates the HTTP cache with the response.
    ForceCache,
    /// Uses any response in the HTTP cache matching the request, not paying
    /// attention to staleness. If there was no response, it returns a
    /// synthesized gateway-timeout response.
    OnlyIfCached,
    /// Overrides the check that determines if a response can be cached to
    /// always return true on 200. Uses any response in the HTTP cache
    /// matching the request, not paying attention to staleness. If there
    /// was no response, it creates a normal request and updates the HTTP
    /// cache with the response.
    IgnoreRules,
}

/// A basic cache status, used in the custom `x-cache` and `x-cache-lookup`
/// response headers.
#[derive(Debug, Copy, Clone, PartialEq, Eq, Structural)]
pub enum HitOrMiss {
    /// Yes, there was a hit.
    HIT,
    /// No, there was no hit.
    MISS,
}

impl HitOrMiss {
    /// The header value for this status: `"HIT"` or `"MISS"`.
    pub open spec fn spec_str(self) -> Seq<char> {
        match self {
            HitOrMiss::HIT => "HIT"@,
            HitOrMiss::MISS => "MISS"@,
        }
    }

    /// Renders the status as it appears in a header value.
    pub fn to_str(&self) -> (r: &'static str)
        ensures
            r@ == self.spec_str(),
    {
        match self {
            HitOrMiss::HIT => "HIT",
            HitOrMiss::MISS => "MISS",
        }
    }
}

} // verus!
