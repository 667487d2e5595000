//! Cache-key derivation and the engine's configuration: options for the
//! policy evaluator, caller-supplied override hooks, and the switch for
//! the cache-status headers.
//!
//! Each hook trait carries a spec method naming the hook's result, so the
//! engine's contracts can speak even when a hook is configured. The spec
//! method has a default of an arbitrary value; an unverified hook that
//! overrides only the executable method is trusted to return its own spec
//! method's value, like any other unverified trait implementation here.

use std::sync::Arc;

use vstd::prelude::*;

use http_cache_semantics::CacheOptions;

use crate::CacheMode;
use crate::middleware::RequestParts;
use crate::middleware::RequestView;

verus! {

/// A caller-supplied cache-key function, overriding the default
/// derivation. By default, the cache key is a combination of the request
/// method and uri with a colon in between.
pub trait CacheKey: Send + Sync {
    /// The key this hook derives from a request head.
    open spec fn spec_key(&self, parts: RequestView) -> Seq<char> {
        vstd::pervasive::arbitrary()
    }

    /// Computes the cache key from the request parts.
    fn key(&self, parts: &RequestParts) -> (r: String)
        ensures
            r@ == self.spec_key(parts@),
    ;
}

/// A caller-supplied function returning a cache mode per request.
pub trait CacheModeFn: Send + Sync {
    /// The mode this hook picks for a request head.
    open spec fn spec_mode(&self, parts: RequestView) -> CacheMode {
        vstd::pervasive::arbitrary()
    }

    /// Picks the cache mode from the request parts.
    fn mode(&self, parts: &RequestParts) -> (r: CacheMode)
        ensures
            r == self.spec_mode(parts@),
    ;
}

/// A caller-supplied function returning additional keys to delete before
/// lookup. An empty vector means that no cache busting will be performed.
pub trait CacheBust: Send + Sync {
    /// The keys this hook names for a request head, the configured key
    /// function, and the just-computed cache key.
    open spec fn spec_keys(
        &self,
        parts: RequestView,
        cache_key: Option<Arc<dyn CacheKey>>,
        default_key: Seq<char>,
    ) -> Seq<Seq<char>> {
        vstd::pervasive::arbitrary()
    }

    /// Computes the keys to bust from the request parts, the configured
    /// key function, and the just-computed cache key.
    fn keys(
        &self,
        parts: &RequestParts,
        cache_key: &Option<Arc<dyn CacheKey>>,
        default_key: &str,
    ) -> (r: Vec<String>)
        ensures
            r.deep_view() == self.spec_keys(parts@, *cache_key, default_key@),
    ;
}

/// The default cache key: `{method}:{uri}`.
pub open spec fn default_key(method: Seq<char>, uri: Seq<char>) -> Seq<char> {
    method + ":"@ + uri
}

/// Can be used to override the default cache options, cache key, cache
/// mode and cache busting, and to switch the cache-status headers off.
#[derive(Clone)]
pub struct HttpCacheOptions {
    /// Override the default options of the policy evaluator.
    pub cache_options: Option<CacheOptions>,
    /// Override the default cache key generator.
    pub cache_key: Option<Arc<dyn CacheKey>>,
    /// Override the default cache mode.
    pub cache_mode_fn: Option<Arc<dyn CacheModeFn>>,
    /// Bust the caches of the returned keys.
    pub cache_bust: Option<Arc<dyn CacheBust>>,
    /// Determines if the cache status headers should be added to the
    /// response.
    pub cache_status_headers: bool,
}

impl Default for HttpCacheOptions {
    /// The default configuration: no overrides, cache-status headers on.
    fn default() -> (r: Self)
        ensures
            r.cache_options is None,
            r.cache_key is None,
            r.cache_mode_fn is None,
            r.cache_bust is None,
            r.cache_status_headers == true,
    {
        Self {
            cache_options: None,
            cache_key: None,
            cache_mode_fn: None,
            cache_bust: None,
            cache_status_headers: true,
        }
    }
}

impl HttpCacheOptions {
    /// The cache key these options derive from a request head: the
    /// configured hook's key, else `{method}:{uri}`.
    pub open spec fn spec_key_of(&self, parts: RequestView) -> Seq<char> {
        match self.cache_key {
            Some(f) => f.spec_key(parts),
            None => default_key(parts.method, parts.uri),
        }
    }

    /// Derives the cache key for `parts`. A configured `cache_key` hook
    /// fully replaces the default derivation, and `override_method` is
    /// ignored; without a hook, `override_method` replaces the method
    /// component of the default `{method}:{uri}` derivation.
    pub fn create_cache_key(&self, parts: &RequestParts, override_method: Option<&str>) -> (r:
        String)
        ensures
            match self.cache_key {
                Some(f) => r@ == f.spec_key(parts@),
                None => r@ == default_key(
                    match override_method {
                        Some(m) => m@,
                        None => parts.method@,
                    },
                    parts.uri@,
                ),
            },
            override_method is None ==> r@ == self.spec_key_of(parts@),
    {
        match &self.cache_key {
            Some(f) => f.key(parts),
            None => {
                let mut s = match override_method {
                    Some(m) => m.to_owned(),
                    None => parts.method.clone(),
                };
                s.append(":");
                s.append(parts.uri.as_str());
                s
            },
        }
    }
}

} // verus!
