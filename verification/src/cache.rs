//! The decision engine: per request it resolves the cache mode, derives
//! the cache key, busts and consults the store, and serves, revalidates,
//! fetches or refuses, keeping the store and the response headers
//! consistent. The contracts on [`HttpCache::run`] and its helpers state
//! that bookkeeping exactly.

use vstd::prelude::*;

use http_cache_semantics::CachePolicy;

use crate::CacheMode;
use crate::HitOrMiss;
use crate::error::Error;
use crate::manager::CacheManager;
use crate::manager::StoredView;
use crate::middleware::Middleware;
use crate::middleware::RequestView;
use crate::options::HttpCacheOptions;
use crate::options::default_key;
use crate::response::HttpResponse;

verus! {

/// True when a request with this mode and method class may use the cache.
pub open spec fn spec_request_cacheable(mode: CacheMode, get_head: bool) -> bool {
    mode == CacheMode::IgnoreRules || (get_head && mode != CacheMode::NoStore)
}

/// The engine's storability decision for a fetched response: a GET or
/// HEAD response with status 200 that the policy admits, under any mode
/// but `NoStore`; under `IgnoreRules` any GET or HEAD 200, regardless of
/// the policy's verdict. Only GET or HEAD requests ever produce stored
/// entries.
pub open spec fn spec_response_storable(
    get_head: bool,
    mode: CacheMode,
    status: u16,
    policy_storable: bool,
) -> bool {
    get_head && status == 200 && (mode == CacheMode::IgnoreRules || (mode != CacheMode::NoStore
        && policy_storable))
}

/// Decides storability from the method class, the resolved mode, the
/// response status, and the policy evaluator's verdict.
pub fn response_storable(get_head: bool, mode: CacheMode, status: u16, policy_storable: bool) -> (r:
    bool)
    ensures
        r == spec_response_storable(get_head, mode, status, policy_storable),
{
    let mut is_cacheable = get_head && mode != CacheMode::NoStore && status == 200
        && policy_storable;
    if mode == CacheMode::IgnoreRules && status == 200 && get_head {
        is_cacheable = true;
    }
    is_cacheable
}

/// True when `new` holds no entry that `old` did not hold with the same
/// value: at most deletions happened.
pub open spec fn only_deletions(
    old_store: Map<Seq<char>, StoredView>,
    new_store: Map<Seq<char>, StoredView>,
) -> bool {
    forall|k: Seq<char>| #[trigger]
        new_store.contains_key(k) ==> old_store.contains_key(k) && new_store[k] == old_store[k]
}

/// True when `new` differs from `old` at most at the keys `k1` and `k2`.
pub open spec fn unchanged_except(
    old_store: Map<Seq<char>, StoredView>,
    new_store: Map<Seq<char>, StoredView>,
    k1: Seq<char>,
    k2: Seq<char>,
) -> bool {
    forall|k: Seq<char>|
        k != k1 && k != k2 ==> ((old_store.contains_key(k) <==> #[trigger] new_store.contains_key(
            k,
        )) && (old_store.contains_key(k) ==> new_store[k] == old_store[k]))
}

/// The header names and values the engine writes are pairwise distinct.
proof fn lemma_tag_names_distinct()
    ensures
        "x-cache"@ != "x-cache-lookup"@,
        "x-cache"@ != "warning"@,
        "x-cache-lookup"@ != "warning"@,
        "HIT"@ != "MISS"@,
{
    reveal_strlit("x-cache");
    reveal_strlit("x-cache-lookup");
    reveal_strlit("warning");
    reveal_strlit("HIT");
    reveal_strlit("MISS");
    assert("x-cache"@.len() == 7);
    assert("x-cache-lookup"@.len() == 14);
    assert("warning"@.len() == 7);
    assert("x-cache"@[0] == 'x' && "warning"@[0] == 'w');
    assert("HIT"@.len() == 3 && "MISS"@.len() == 4);
}

/// Strips a stored warning with a code in `[100, 200)` from a response
/// taken out of the store, as RFC 7234 §4.3.4 asks; any other warning is
/// retained. The result never carries a warning code in `[100, 200)`.
fn strip_stale_warning(res: &mut HttpResponse)
    requires
        old(res).wf(),
    ensures
        final(res).wf(),
        final(res)@.body == old(res)@.body,
        final(res)@.parts.status == old(res)@.parts.status,
        final(res)@.parts.url == old(res)@.parts.url,
        final(res)@.parts.version == old(res)@.parts.version,
        if (match old(res).spec_warning_code() {
            Some(c) => 100 <= c < 200,
            None => false,
        }) {
            final(res)@.parts.headers == old(res)@.parts.headers.remove("warning"@)
        } else {
            *final(res) == *old(res)
        },
        match final(res).spec_warning_code() {
            Some(c) => !(100 <= c < 200),
            None => true,
        },
{
    if let Some(code) = res.warning_code() {
        if 100 <= code && code < 200 {
            res.remove_warning();
        }
    }
}

/// Caches requests according to HTTP caching rules.
#[derive(Clone)]
pub struct HttpCache<T: CacheManager> {
    /// Determines the engine's behavior when no override applies.
    pub mode: CacheMode,
    /// Manager instance that implements the [`CacheManager`] trait.
    pub manager: T,
    /// Overrides of the default cache options.
    pub options: HttpCacheOptions,
}

impl<T: CacheManager> HttpCache<T> {
    /// The stored entries, as the manager models them.
    pub open spec fn store(&self) -> Map<Seq<char>, StoredView> {
        self.manager.store()
    }

    /// True when the resolved mode is knowable from the request and the
    /// configuration: a per-request override is present, or no mode hook
    /// is configured.
    pub open spec fn mode_pinned<M: Middleware>(&self, m: &M) -> bool {
        m.spec_overridden_mode() is Some || self.options.cache_mode_fn is None
    }

    /// The resolved mode, meaningful when it is knowable.
    pub open spec fn resolved_mode<M: Middleware>(&self, m: &M) -> CacheMode {
        match m.spec_overridden_mode() {
            Some(md) => md,
            None => self.mode,
        }
    }

    /// The default cache key of the request: `{method}:{uri}`.
    pub open spec fn request_key<M: Middleware>(&self, m: &M) -> Seq<char> {
        default_key(m.req_method(), m.req_uri())
    }

    /// The GET-keyed sibling of the request's cache key.
    pub open spec fn request_get_key<M: Middleware>(&self, m: &M) -> Seq<char> {
        default_key("GET"@, m.req_uri())
    }

    /// True when the request's method is GET or HEAD.
    pub open spec fn spec_get_head<M: Middleware>(m: &M) -> bool {
        m.req_method() == "GET"@ || m.req_method() == "HEAD"@
    }

    /// Resolves the cache mode, highest precedence first: the adapter's
    /// override, then the configured mode hook, then the engine's mode.
    fn cache_mode<M: Middleware>(&self, middleware: &M) -> (r: Result<CacheMode, Error>)
        ensures
            self.mode_pinned(middleware) ==> r == Ok::<CacheMode, Error>(
                self.resolved_mode(middleware),
            ),
            match self.options.cache_mode_fn {
                None => true,
                Some(f) => middleware.spec_overridden_mode() is None ==> match r {
                    Ok(md) => md == f.spec_mode(
                        RequestView {
                            method: middleware.req_method(),
                            uri: middleware.req_uri(),
                            headers: middleware.req_headers(),
                        },
                    ),
                    Err(_) => true,
                },
            },
    {
        Ok(
            if let Some(mode) = middleware.overridden_cache_mode() {
                mode
            } else if let Some(f) = &self.options.cache_mode_fn {
                let parts = middleware.parts()?;
                f.mode(&parts)
            } else {
                self.mode
            },
        )
    }

    /// Determines if the request should be cached: true iff the mode is
    /// `IgnoreRules`, or the method is GET or HEAD and the mode is not
    /// `NoStore`.
    pub fn can_cache_request<M: Middleware>(&self, middleware: &M) -> (r: Result<bool, Error>)
        ensures
            self.mode_pinned(middleware) ==> r == Ok::<bool, Error>(
                spec_request_cacheable(
                    self.resolved_mode(middleware),
                    Self::spec_get_head(middleware),
                ),
            ),
    {
        let mode = self.cache_mode(middleware)?;
        Ok(mode == CacheMode::IgnoreRules || middleware.is_method_get_head() && mode
            != CacheMode::NoStore)
    }

    /// Runs the actions to perform when the client middleware is running
    /// without the cache: the GET-keyed entry for the request is removed,
    /// and any configured cache-busting is applied. Nothing is ever added
    /// to the store.
    pub fn run_no_cache<M: Middleware>(&mut self, middleware: &mut M) -> (r: Result<(), Error>)
        ensures
            final(self).mode == old(self).mode,
            final(self).options == old(self).options,
            *final(middleware) == *old(middleware),
            only_deletions(old(self).store(), final(self).store()),
            (old(self).options.cache_key is None && r is Ok)
                ==> !final(self).store().contains_key(old(self).request_get_key(old(middleware))),
            (old(self).options.cache_key is None && old(self).options.cache_bust is None && r
                is Ok) ==> final(self).store() == old(self).store().remove(
                old(self).request_get_key(old(middleware)),
            ),
            match old(self).options.cache_bust {
                None => true,
                Some(b) => (old(self).options.cache_key is None && r is Ok) ==> {
                    let bk = b.spec_keys(
                        RequestView {
                            method: old(middleware).req_method(),
                            uri: old(middleware).req_uri(),
                            headers: old(middleware).req_headers(),
                        },
                        old(self).options.cache_key,
                        old(self).request_key(old(middleware)),
                    );
                    forall|j: int|
                        0 <= j < bk.len() ==> !final(self).store().contains_key(#[trigger] bk[j])
                },
            },
    {
        let parts = middleware.parts()?;
        let get_key = self.options.create_cache_key(&parts, Some("GET"));
        self.manager.delete(get_key.as_str());
        let cache_key = self.options.create_cache_key(&parts, None);
        if let Some(bust) = &self.options.cache_bust {
            let keys: Vec<String> = bust.keys(&parts, &self.options.cache_key, cache_key.as_str());
            let ghost bk = bust.spec_keys(parts@, self.options.cache_key, cache_key@);
            proof {
                assert(keys.deep_view() == bk);
                assert(forall|j: int|
                    0 <= j < keys@.len() ==> bk[j] == (#[trigger] keys@[j])@);
            }
            let ghost gkv = old(self).request_get_key(old(middleware));
            let mut i: usize = 0;
            while i < keys.len()
                invariant
                    self.mode == old(self).mode,
                    self.options == old(self).options,
                    i <= keys.len(),
                    bk.len() == keys@.len(),
                    forall|j: int| 0 <= j < keys@.len() ==> bk[j] == (#[trigger] keys@[j])@,
                    only_deletions(old(self).store(), self.manager.store()),
                    old(self).options.cache_key is None ==> !self.manager.store().contains_key(
                        gkv,
                    ),
                    forall|j: int|
                        0 <= j < i ==> !self.manager.store().contains_key(#[trigger] bk[j]),
                decreases keys.len() - i,
            {
                self.manager.delete(keys[i].as_str());
                i = i + 1;
            }
        }
        Ok(())
    }

    /// Writes a fetched response through the store, handed in as
    /// `fetched`: it is tagged `x-cache: MISS` and `x-cache-lookup: MISS`,
    /// a fresh policy is derived, and it is stored when the storability
    /// decision admits it; a non-GET/HEAD response instead invalidates the
    /// GET-keyed sibling entry. The response handed back is `fetched`,
    /// changed only in the two cache-status headers.
    pub fn store_fetched<M: Middleware>(&mut self, middleware: &M, fetched: HttpResponse) -> (r:
        Result<HttpResponse, Error>)
        requires
            fetched.wf(),
            fetched@.parts.url.host is Some,
        ensures
            final(self).mode == old(self).mode,
            final(self).options == old(self).options,
            old(self).options.cache_key is None ==> unchanged_except(
                old(self).store(),
                final(self).store(),
                old(self).request_key(middleware),
                old(self).request_get_key(middleware),
            ),
            (old(self).mode_pinned(middleware) && old(self).resolved_mode(middleware)
                == CacheMode::NoStore) ==> only_deletions(old(self).store(), final(self).store()),
            match r {
                Err(_) => true,
                Ok(out) => {
                    &&& out.wf()
                    &&& out@.parts.url.host is Some
                    &&& out@.body == fetched@.body
                    &&& out@.parts.status == fetched@.parts.status
                    &&& out@.parts.url == fetched@.parts.url
                    &&& out@.parts.version == fetched@.parts.version
                    &&& out@.parts.headers == (if old(self).options.cache_status_headers {
                        fetched@.parts.headers.insert("x-cache"@, "MISS"@).insert(
                            "x-cache-lookup"@,
                            "MISS"@,
                        )
                    } else {
                        fetched@.parts.headers
                    })
                    &&& (old(self).mode_pinned(middleware) && old(self).options.cache_key
                        is None) ==> {
                        let md = old(self).resolved_mode(middleware);
                        let gh = Self::spec_get_head(middleware);
                        let key = old(self).request_key(middleware);
                        let gkey = old(self).request_get_key(middleware);
                        &&& (!gh ==> final(self).store() == old(self).store().remove(gkey))
                        &&& ((gh && (md == CacheMode::NoStore || fetched@.parts.status != 200))
                            ==> final(self).store() == old(self).store())
                        &&& ((gh && md == CacheMode::IgnoreRules && fetched@.parts.status == 200)
                            ==> (exists|p: CachePolicy|
                                final(self).store() == #[trigger] old(self).store().insert(
                                    key,
                                    StoredView { response: out@, policy: p },
                                )))
                        &&& ((gh && md != CacheMode::NoStore && fetched@.parts.status == 200)
                            ==> (final(self).store() == old(self).store() || (exists|
                                p: CachePolicy,
                            |
                                final(self).store() == #[trigger] old(self).store().insert(
                                    key,
                                    StoredView { response: out@, policy: p },
                                ))))
                    }
                },
            },
    {
        let mut res = fetched;
        if self.options.cache_status_headers {
            res.cache_status(HitOrMiss::MISS);
            res.cache_lookup_status(HitOrMiss::MISS);
            proof {
                lemma_tag_names_distinct();
            }
        }
        let policy = match self.options.cache_options {
            Some(options) => middleware.policy_with_options(&res, options)?,
            None => middleware.policy(&res)?,
        };
        let is_get_head = middleware.is_method_get_head();
        let mode = self.cache_mode(middleware)?;
        let storable = response_storable(is_get_head, mode, res.parts.status, policy.is_storable());
        if storable {
            let parts = middleware.parts()?;
            let key = self.options.create_cache_key(&parts, None);
            let ghost resv = res@;
            let ghost pol = policy;
            let ghost kv = key@;
            let out = self.manager.put(key, res, policy)?;
            proof {
                assert(self.manager.store() == old(self).store().insert(
                    kv,
                    StoredView { response: resv, policy: pol },
                ));
                assert(out@ == resv);
                if old(self).options.cache_key is None {
                    assert(kv == old(self).request_key(middleware));
                    assert(self.manager.store() == old(self).store().insert(
                        old(self).request_key(middleware),
                        StoredView { response: out@, policy: pol },
                    ));
                }
            }
            Ok(out)
        } else if !is_get_head {
            let parts = middleware.parts()?;
            let get_key = self.options.create_cache_key(&parts, Some("GET"));
            self.manager.delete(get_key.as_str());
            Ok(res)
        } else {
            Ok(res)
        }
    }

    /// Fetches from the origin and writes through, via
    /// [`Self::store_fetched`]. Exactly one fetch happens, whatever comes
    /// of it; on success the returned response is the fetched one, tagged
    /// `x-cache: MISS` and `x-cache-lookup: MISS`.
    fn remote_fetch<M: Middleware>(&mut self, middleware: &mut M) -> (r: Result<
        HttpResponse,
        Error,
    >)
        ensures
            final(self).mode == old(self).mode,
            final(self).options == old(self).options,
            final(middleware).req_method() == old(middleware).req_method(),
            final(middleware).req_uri() == old(middleware).req_uri(),
            final(middleware).req_url() == old(middleware).req_url(),
            final(middleware).req_headers() == old(middleware).req_headers(),
            final(middleware).spec_overridden_mode() == old(middleware).spec_overridden_mode(),
            final(middleware).fetches() == old(middleware).fetches() + 1,
            match r {
                Ok(res) => res.wf() && res@.parts.url.host is Some && (old(
                    self,
                ).options.cache_status_headers ==> {
                    &&& res@.parts.headers.contains_key("x-cache"@)
                    &&& res@.parts.headers["x-cache"@] == "MISS"@
                    &&& res@.parts.headers.contains_key("x-cache-lookup"@)
                    &&& res@.parts.headers["x-cache-lookup"@] == "MISS"@
                }),
                Err(_) => true,
            },
            old(self).options.cache_key is None ==> unchanged_except(
                old(self).store(),
                final(self).store(),
                old(self).request_key(old(middleware)),
                old(self).request_get_key(old(middleware)),
            ),
            (old(self).mode_pinned(old(middleware)) && old(self).resolved_mode(old(middleware))
                == CacheMode::NoStore) ==> only_deletions(old(self).store(), final(self).store()),
            match r {
                Err(_) => true,
                Ok(res) => old(self).mode_pinned(old(middleware)) && old(
                    self,
                ).options.cache_key is None ==> {
                let md = old(self).resolved_mode(old(middleware));
                let gh = Self::spec_get_head(old(middleware));
                let key = old(self).request_key(old(middleware));
                let gkey = old(self).request_get_key(old(middleware));
                &&& (!gh ==> final(self).store() == old(self).store().remove(gkey))
                &&& ((gh && (md == CacheMode::NoStore || res@.parts.status != 200))
                    ==> final(self).store() == old(self).store())
                &&& ((gh && md == CacheMode::IgnoreRules && res@.parts.status == 200)
                    ==> (exists|p: CachePolicy|
                        final(self).store() == #[trigger] old(self).store().insert(
                            key,
                            StoredView { response: res@, policy: p },
                        )))
                &&& ((gh && md != CacheMode::NoStore && res@.parts.status == 200)
                    ==> (final(self).store() == old(self).store() || (exists|p: CachePolicy|
                        final(self).store() == #[trigger] old(self).store().insert(
                            key,
                            StoredView { response: res@, policy: p },
                        ))))
                },
            },
    {
        proof {
            lemma_tag_names_distinct();
        }
        let res = middleware.remote_fetch()?;
        let ghost m1 = *middleware;
        let ghost s1 = self.manager.store();
        let ghost fv = res@;
        let r = self.store_fetched(middleware, res);
        proof {
            assert(s1 == old(self).store());
            assert(old(self).mode_pinned(&m1) == old(self).mode_pinned(old(middleware)));
            assert(old(self).resolved_mode(&m1) == old(self).resolved_mode(old(middleware)));
            assert(Self::spec_get_head(&m1) == Self::spec_get_head(old(middleware)));
            assert(old(self).request_key(&m1) == old(self).request_key(old(middleware)));
            assert(old(self).request_get_key(&m1) == old(self).request_get_key(old(middleware)));
            if old(self).mode_pinned(old(middleware)) && old(self).options.cache_key is None && r
                is Ok {
                let out = r->Ok_0;
                let md = old(self).resolved_mode(old(middleware));
                let gh = Self::spec_get_head(old(middleware));
                if gh && fv.parts.status == 200 && md != CacheMode::NoStore
                    && self.manager.store() != old(self).store() {
                    let p0 = choose|p: CachePolicy|
                        self.manager.store() == s1.insert(
                            old(self).request_key(&m1),
                            StoredView { response: out@, policy: p },
                        );
                    assert(self.manager.store() == old(self).store().insert(
                        old(self).request_key(old(middleware)),
                        StoredView { response: out@, policy: p0 },
                    ));
                }
            }
        }
        r
    }

    /// Serves or revalidates a stored response according to the policy
    /// evaluator's freshness verdict, handed in as `verdict`. `Fresh`
    /// serves the stored response with the verdict's headers merged and,
    /// with status headers on, `x-cache` and `x-cache-lookup` set to HIT,
    /// without a fetch or a store change. `Stale` merges the revalidation
    /// request headers into the outgoing request when the entry matches,
    /// fetches, and settles through [`Self::revalidation_outcome`].
    #[verifier::rlimit(60)]
    pub fn freshness_outcome<M: Middleware>(
        &mut self,
        middleware: &mut M,
        cached_res: HttpResponse,
        policy: CachePolicy,
        verdict: crate::boundary::Freshness,
    ) -> (r: Result<HttpResponse, Error>)
        requires
            cached_res.wf(),
            cached_res@.parts.status == 200,
            cached_res@.parts.url.host is Some,
        ensures
            final(self).mode == old(self).mode,
            final(self).options == old(self).options,
            final(middleware).req_method() == old(middleware).req_method(),
            final(middleware).req_uri() == old(middleware).req_uri(),
            final(middleware).req_url() == old(middleware).req_url(),
            final(middleware).spec_overridden_mode() == old(middleware).spec_overridden_mode(),
            old(middleware).fetches() <= final(middleware).fetches() <= old(middleware).fetches()
                + 1,
            old(self).options.cache_key is None ==> unchanged_except(
                old(self).store(),
                final(self).store(),
                old(self).request_key(old(middleware)),
                old(self).request_key(old(middleware)),
            ),
            old(self).options.cache_status_headers ==> match r {
                Ok(res) => (res@.parts.headers.contains_key("x-cache"@)
                    && res@.parts.headers["x-cache"@] == "HIT"@) ==> res@.body
                    == cached_res@.body,
                Err(_) => true,
            },
            (old(self).options.cache_status_headers && cached_res@.parts.headers.contains_key(
                "x-cache-lookup"@,
            ) && cached_res@.parts.headers["x-cache-lookup"@] == "HIT"@) ==> match r {
                Ok(res) => res@.parts.headers.contains_key("x-cache-lookup"@)
                    && res@.parts.headers["x-cache-lookup"@] == "HIT"@,
                Err(_) => true,
            },
            old(self).options.cache_key is None ==> match r {
                Ok(res) => final(self).store() == old(self).store() || (exists|p: CachePolicy|
                    final(self).store() == #[trigger] old(self).store().insert(
                        old(self).request_key(old(middleware)),
                        StoredView { response: res@, policy: p },
                    )),
                Err(_) => true,
            },
            match verdict {
                crate::boundary::Freshness::Fresh(h) => {
                    &&& *final(middleware) == *old(middleware)
                    &&& final(self).store() == old(self).store()
                    &&& match r {
                        Ok(res) => {
                            &&& res@.body == cached_res@.body
                            &&& res@.parts.status == cached_res@.parts.status
                            &&& res@.parts.url == cached_res@.parts.url
                            &&& res@.parts.version == cached_res@.parts.version
                            &&& res@.parts.headers == (if old(self).options.cache_status_headers {
                                crate::headers::merged(cached_res@.parts.headers, h@).insert(
                                    "x-cache"@,
                                    "HIT"@,
                                ).insert("x-cache-lookup"@, "HIT"@)
                            } else {
                                crate::headers::merged(cached_res@.parts.headers, h@)
                            })
                        },
                        Err(_) => false,
                    }
                },
                crate::boundary::Freshness::Stale { request, matches } => {
                    &&& (r is Ok ==> final(middleware).fetches() == old(middleware).fetches() + 1)
                    &&& ((matches && r is Ok) ==> final(middleware).req_headers()
                        == crate::headers::merged(old(middleware).req_headers(), request@))
                    &&& (!matches ==> final(middleware).req_headers()
                        == old(middleware).req_headers())
                },
            },
    {
        let mut cached_res = cached_res;
        match verdict {
            crate::boundary::Freshness::Fresh(headers) => {
                cached_res.update_headers(&headers);
                if self.options.cache_status_headers {
                    cached_res.cache_status(HitOrMiss::HIT);
                    cached_res.cache_lookup_status(HitOrMiss::HIT);
                }
                proof {
                    lemma_tag_names_distinct();
                }
                Ok(cached_res)
            },
            crate::boundary::Freshness::Stale { request, matches } => {
                if matches {
                    middleware.update_headers(&request)?;
                }
                let req_url = middleware.url()?;
                let fetched = middleware.remote_fetch();
                let ghost m2 = *middleware;
                let ghost s1 = self.manager.store();
                let r = self.revalidation_outcome(middleware, cached_res, policy, req_url, fetched);
                proof {
                    assert(s1 == old(self).store());
                    assert(old(self).request_key(&m2) == old(self).request_key(old(middleware)));
                    if self.options.cache_key is None && r is Ok && self.manager.store() != old(
                        self,
                    ).store() {
                        let res = r->Ok_0;
                        let p0 = choose|p: CachePolicy|
                            self.manager.store() == s1.insert(
                                old(self).request_key(&m2),
                                StoredView { response: res@, policy: p },
                            );
                        assert(self.manager.store() == old(self).store().insert(
                            old(self).request_key(old(middleware)),
                            StoredView { response: res@, policy: p0 },
                        ));
                    }
                }
                r
            },
        }
    }

    /// Revalidates a stored response: asks the policy whether it is still
    /// fresh and settles through [`Self::freshness_outcome`]. A success
    /// without a fetch is the `Fresh` outcome: the stored body served with
    /// both cache-status headers set to HIT and the store untouched.
    fn conditional_fetch<M: Middleware>(
        &mut self,
        middleware: &mut M,
        cached_res: HttpResponse,
        policy: CachePolicy,
    ) -> (r: Result<HttpResponse, Error>)
        requires
            cached_res.wf(),
            cached_res@.parts.status == 200,
            cached_res@.parts.url.host is Some,
        ensures
            final(self).mode == old(self).mode,
            final(self).options == old(self).options,
            final(middleware).req_method() == old(middleware).req_method(),
            final(middleware).req_uri() == old(middleware).req_uri(),
            final(middleware).req_url() == old(middleware).req_url(),
            final(middleware).spec_overridden_mode() == old(middleware).spec_overridden_mode(),
            old(middleware).fetches() <= final(middleware).fetches() <= old(middleware).fetches()
                + 1,
            old(self).options.cache_key is None ==> unchanged_except(
                old(self).store(),
                final(self).store(),
                old(self).request_key(old(middleware)),
                old(self).request_key(old(middleware)),
            ),
            old(self).options.cache_status_headers ==> match r {
                Ok(res) => (res@.parts.headers.contains_key("x-cache"@)
                    && res@.parts.headers["x-cache"@] == "HIT"@) ==> res@.body
                    == cached_res@.body,
                Err(_) => true,
            },
            (old(self).options.cache_status_headers && cached_res@.parts.headers.contains_key(
                "x-cache-lookup"@,
            ) && cached_res@.parts.headers["x-cache-lookup"@] == "HIT"@) ==> match r {
                Ok(res) => res@.parts.headers.contains_key("x-cache-lookup"@)
                    && res@.parts.headers["x-cache-lookup"@] == "HIT"@,
                Err(_) => true,
            },
            old(self).options.cache_key is None ==> match r {
                Ok(res) => final(self).store() == old(self).store() || (exists|p: CachePolicy|
                    final(self).store() == #[trigger] old(self).store().insert(
                        old(self).request_key(old(middleware)),
                        StoredView { response: res@, policy: p },
                    )),
                Err(_) => true,
            },
            match r {
                Ok(res) => (old(self).options.cache_status_headers && final(middleware).fetches()
                    == old(middleware).fetches()) ==> {
                    &&& res@.parts.headers.contains_key("x-cache"@)
                    &&& res@.parts.headers["x-cache"@] == "HIT"@
                    &&& res@.parts.headers.contains_key("x-cache-lookup"@)
                    &&& res@.parts.headers["x-cache-lookup"@] == "HIT"@
                    &&& res@.body == cached_res@.body
                    &&& final(self).store() == old(self).store()
                },
                Err(_) => true,
            },
    {
        proof {
            lemma_tag_names_distinct();
        }
        let parts = middleware.parts()?;
        let before = crate::boundary::policy_before_request(&policy, &parts)?;
        self.freshness_outcome(middleware, cached_res, policy, before)
    }

    /// Settles a revalidation from the origin's answer, handed in as
    /// `fetched`. A server error against a `must-revalidate` entry, any
    /// unexpected status, and a network failure without `must-revalidate`
    /// serve the stale response, the latter two tagged with warning 111; a
    /// 304 refreshes the stored entry and serves the stored body; a 200
    /// replaces the stored entry and serves the new body.
    pub fn revalidation_outcome<M: Middleware>(
        &mut self,
        middleware: &mut M,
        cached_res: HttpResponse,
        policy: CachePolicy,
        req_url: crate::response::HttpUrl,
        fetched: Result<HttpResponse, Error>,
    ) -> (r: Result<HttpResponse, Error>)
        requires
            cached_res.wf(),
            cached_res@.parts.status == 200,
            cached_res@.parts.url.host is Some,
            req_url@.host is Some,
            fetched matches Ok(c) ==> c.wf() && c@.parts.url.host is Some,
        ensures
            final(self).mode == old(self).mode,
            final(self).options == old(self).options,
            *final(middleware) == *old(middleware),
            old(self).options.cache_key is None ==> unchanged_except(
                old(self).store(),
                final(self).store(),
                old(self).request_key(old(middleware)),
                old(self).request_key(old(middleware)),
            ),
            old(self).options.cache_status_headers ==> match r {
                Ok(res) => (res@.parts.headers.contains_key("x-cache"@)
                    && res@.parts.headers["x-cache"@] == "HIT"@) ==> res@.body
                    == cached_res@.body,
                Err(_) => true,
            },
            (old(self).options.cache_status_headers && cached_res@.parts.headers.contains_key(
                "x-cache-lookup"@,
            ) && cached_res@.parts.headers["x-cache-lookup"@] == "HIT"@) ==> match r {
                Ok(res) => res@.parts.headers.contains_key("x-cache-lookup"@)
                    && res@.parts.headers["x-cache-lookup"@] == "HIT"@,
                Err(_) => true,
            },
            old(self).options.cache_key is None ==> match r {
                Ok(res) => final(self).store() == old(self).store() || (exists|p: CachePolicy|
                    final(self).store() == #[trigger] old(self).store().insert(
                        old(self).request_key(old(middleware)),
                        StoredView { response: res@, policy: p },
                    )),
                Err(_) => true,
            },
            match fetched {
                Err(_) => {
                    &&& final(self).store() == old(self).store()
                    &&& cached_res.spec_must_revalidate() ==> r == fetched
                    &&& !cached_res.spec_must_revalidate() ==> match r {
                        Ok(res) => {
                            &&& res@.body == cached_res@.body
                            &&& res.spec_warning_code() == Some(111nat)
                            &&& old(self).options.cache_status_headers
                                ==> res@.parts.headers.contains_key("x-cache"@)
                                && res@.parts.headers["x-cache"@] == "HIT"@
                        },
                        Err(_) => false,
                    }
                },
                Ok(cond) => {
                    &&& !(100 <= cond@.parts.status < 1000) ==> r is Err && final(self).store()
                        == old(self).store()
                    &&& (500 <= cond@.parts.status <= 599 && cached_res.spec_must_revalidate())
                        ==> final(self).store() == old(self).store() && match r {
                        Ok(res) => {
                            &&& res@.body == cached_res@.body
                            &&& res.spec_warning_code() == Some(111nat)
                            &&& old(self).options.cache_status_headers
                                ==> res@.parts.headers.contains_key("x-cache"@)
                                && res@.parts.headers["x-cache"@] == "HIT"@
                        },
                        Err(_) => false,
                    }
                    &&& cond@.parts.status == 304 ==> match r {
                        Ok(res) => {
                            &&& res@.body == cached_res@.body
                            &&& res@.parts.status == 200
                            &&& old(self).options.cache_status_headers
                                ==> res@.parts.headers["x-cache"@] == "HIT"@
                                && res@.parts.headers["x-cache-lookup"@] == "HIT"@
                            &&& old(self).options.cache_key is None ==> (exists|p: CachePolicy|
                                final(self).store() == #[trigger] old(self).store().insert(
                                    old(self).request_key(old(middleware)),
                                    StoredView { response: res@, policy: p },
                                ))
                        },
                        Err(_) => true,
                    }
                    &&& (cond@.parts.status == 200 && !(500 <= cond@.parts.status <= 599
                        && cached_res.spec_must_revalidate())) ==> match r {
                        Ok(res) => {
                            &&& res@.body == cond@.body
                            &&& old(self).options.cache_status_headers
                                ==> res@.parts.headers["x-cache"@] == "MISS"@
                                && res@.parts.headers["x-cache-lookup"@] == "HIT"@
                            &&& old(self).options.cache_key is None ==> (exists|p: CachePolicy|
                                final(self).store() == #[trigger] old(self).store().insert(
                                    old(self).request_key(old(middleware)),
                                    StoredView { response: res@, policy: p },
                                ))
                        },
                        Err(_) => true,
                    }
                    &&& (100 <= cond@.parts.status < 1000 && cond@.parts.status != 200
                        && cond@.parts.status != 304 && !(500 <= cond@.parts.status <= 599
                        && cached_res.spec_must_revalidate())) ==> final(self).store() == old(
                        self,
                    ).store() && match r {
                        Ok(res) => {
                            &&& res@.body == cached_res@.body
                            &&& old(self).options.cache_status_headers
                                ==> res@.parts.headers.contains_key("x-cache"@)
                                && res@.parts.headers["x-cache"@] == "HIT"@
                        },
                        Err(_) => false,
                    }
                },
            },
    {
        let mut cached_res = cached_res;
        match fetched {
            Ok(mut cond_res) => {
                proof {
                    lemma_tag_names_distinct();
                }
                if !(cond_res.parts.status >= 100 && cond_res.parts.status < 1000) {
                    return Err(Error::AdapterFailure("invalid status code".to_owned()));
                }
                let server_error = cond_res.parts.status >= 500 && cond_res.parts.status <= 599;
                if server_error && cached_res.must_revalidate() {
                    cached_res.add_warning(&req_url, 111, "Revalidation failed");
                    if self.options.cache_status_headers {
                        cached_res.cache_status(HitOrMiss::HIT);
                    }
                    Ok(cached_res)
                } else if cond_res.parts.status == 304 {
                    let parts = middleware.parts()?;
                    let after = crate::boundary::policy_after_response(
                        &policy,
                        &parts,
                        &cond_res.parts,
                    )?;
                    let (new_policy, headers) = match after {
                        crate::boundary::Revalidated::Modified(p, h) => (p, h),
                        crate::boundary::Revalidated::NotModified(p, h) => (p, h),
                    };
                    cached_res.update_headers(&headers);
                    if self.options.cache_status_headers {
                        cached_res.cache_status(HitOrMiss::HIT);
                        cached_res.cache_lookup_status(HitOrMiss::HIT);
                    }
                    let key = self.options.create_cache_key(&parts, None);
                    let ghost resv = cached_res@;
                    let ghost pol = new_policy;
                    let ghost kv = key@;
                    let out = self.manager.put(key, cached_res, new_policy)?;
                    proof {
                        assert(self.manager.store() == old(self).store().insert(
                            kv,
                            StoredView { response: resv, policy: pol },
                        ));
                        assert(out@ == resv);
                        if old(self).options.cache_key is None {
                            assert(self.manager.store() == old(self).store().insert(
                                old(self).request_key(old(middleware)),
                                StoredView { response: out@, policy: pol },
                            ));
                        }
                    }
                    Ok(out)
                } else if cond_res.parts.status == 200 {
                    let new_policy = match self.options.cache_options {
                        Some(options) => middleware.policy_with_options(&cond_res, options)?,
                        None => middleware.policy(&cond_res)?,
                    };
                    if self.options.cache_status_headers {
                        cond_res.cache_status(HitOrMiss::MISS);
                        cond_res.cache_lookup_status(HitOrMiss::HIT);
                    }
                    let parts = middleware.parts()?;
                    let key = self.options.create_cache_key(&parts, None);
                    let ghost resv = cond_res@;
                    let ghost pol = new_policy;
                    let ghost kv = key@;
                    let out = self.manager.put(key, cond_res, new_policy)?;
                    proof {
                        assert(self.manager.store() == old(self).store().insert(
                            kv,
                            StoredView { response: resv, policy: pol },
                        ));
                        assert(out@ == resv);
                        if old(self).options.cache_key is None {
                            assert(self.manager.store() == old(self).store().insert(
                                old(self).request_key(old(middleware)),
                                StoredView { response: out@, policy: pol },
                            ));
                        }
                    }
                    Ok(out)
                } else {
                    if self.options.cache_status_headers {
                        cached_res.cache_status(HitOrMiss::HIT);
                    }
                    Ok(cached_res)
                }
            },
            Err(e) => {
                proof {
                    lemma_tag_names_distinct();
                }
                if cached_res.must_revalidate() {
                    Err(e)
                } else {
                    cached_res.add_warning(&req_url, 111, "Revalidation failed");
                    if self.options.cache_status_headers {
                        cached_res.cache_status(HitOrMiss::HIT);
                    }
                    Ok(cached_res)
                }
            },
        }
    }

    /// Attempts to run the passed middleware along with the cache.
    ///
    /// The contract states the engine's bookkeeping. Unconditionally: the
    /// configuration is untouched, the request's identity is stable, and
    /// at most one remote fetch happens. When no key or bust hook reshapes
    /// the key space, the store changes only at the request's key and its
    /// GET-keyed sibling. When additionally the resolved mode is knowable
    /// (a per-request override, or no mode hook): under `NoStore` nothing
    /// is ever added to the store; a successful non-GET/HEAD request
    /// outside `IgnoreRules` leaves no GET-keyed entry behind; a
    /// non-cacheable request fetches exactly once; a successful cacheable
    /// request busts every key its configured hook named; a cold
    /// `OnlyIfCached` GET returns the synthesized 504 with the stated
    /// body, version, URL and headers, without a fetch or a store change;
    /// for cache-consulting modes other than `Reload` the returned
    /// `x-cache-lookup` header says `HIT` exactly when an entry was
    /// present; `x-cache` says `MISS` on every cold, bypassed, `Reload`
    /// and warm-`NoCache` response; a returned `x-cache: HIT` means the
    /// body is the stored body, and a warm `Default` success without a
    /// fetch is the fresh-served stored body tagged `HIT`/`HIT`; under
    /// `IgnoreRules` a fetched GET/HEAD 200 is stored whatever the policy
    /// said; a cold `Default` GET either leaves the store alone or stores
    /// exactly the returned response; whatever is newly stored under the
    /// request's key has the returned body; and a warm
    /// `ForceCache`/`OnlyIfCached`/`IgnoreRules` GET serves the stored
    /// body tagged `x-cache: HIT` with warning 112, without a fetch or a
    /// store change.
    #[verifier::rlimit(100)]
    pub fn run<M: Middleware>(&mut self, middleware: &mut M) -> (r: Result<HttpResponse, Error>)
        ensures
            final(self).mode == old(self).mode,
            final(self).options == old(self).options,
            final(middleware).req_method() == old(middleware).req_method(),
            final(middleware).req_uri() == old(middleware).req_uri(),
            final(middleware).req_url() == old(middleware).req_url(),
            final(middleware).spec_overridden_mode() == old(middleware).spec_overridden_mode(),
            old(middleware).fetches() <= final(middleware).fetches() <= old(middleware).fetches()
                + 1,
            (old(self).options.cache_key is None && old(self).options.cache_bust is None)
                ==> unchanged_except(
                old(self).store(),
                final(self).store(),
                old(self).request_key(old(middleware)),
                old(self).request_get_key(old(middleware)),
            ),
            (old(self).mode_pinned(old(middleware)) && old(self).resolved_mode(old(middleware))
                == CacheMode::NoStore) ==> only_deletions(old(self).store(), final(self).store()),
            (old(self).mode_pinned(old(middleware)) && old(self).options.cache_key is None
                && !Self::spec_get_head(old(middleware)) && old(self).resolved_mode(
                old(middleware),
            ) != CacheMode::IgnoreRules && r is Ok) ==> !final(self).store().contains_key(
                old(self).request_get_key(old(middleware)),
            ),
            (old(self).mode_pinned(old(middleware)) && !spec_request_cacheable(
                old(self).resolved_mode(old(middleware)),
                Self::spec_get_head(old(middleware)),
            )) ==> final(middleware).fetches() == old(middleware).fetches() + 1,
            match old(self).options.cache_bust {
                None => true,
                Some(b) => (old(self).mode_pinned(old(middleware)) && old(
                    self,
                ).options.cache_key is None && spec_request_cacheable(
                    old(self).resolved_mode(old(middleware)),
                    Self::spec_get_head(old(middleware)),
                ) && r is Ok) ==> {
                    let bk = b.spec_keys(
                        RequestView {
                            method: old(middleware).req_method(),
                            uri: old(middleware).req_uri(),
                            headers: old(middleware).req_headers(),
                        },
                        old(self).options.cache_key,
                        old(self).request_key(old(middleware)),
                    );
                    forall|j: int|
                        0 <= j < bk.len() && bk[j] != old(self).request_key(old(middleware))
                            && bk[j] != old(self).request_get_key(old(middleware))
                            ==> !final(self).store().contains_key(#[trigger] bk[j])
                },
            },
            match r {
                Err(_) => true,
                Ok(res) => (old(self).mode_pinned(old(middleware)) && old(
                    self,
                ).options.cache_key is None && old(self).options.cache_bust is None) ==> {
                    let md = old(self).resolved_mode(old(middleware));
                    let gh = Self::spec_get_head(old(middleware));
                    let sh = old(self).options.cache_status_headers;
                    let key = old(self).request_key(old(middleware));
                    let gkey = old(self).request_get_key(old(middleware));
                    let hit = old(self).store().contains_key(key);
                    &&& ((md == CacheMode::OnlyIfCached && gh && !hit) ==> {
                        &&& res@.parts.status == 504
                        &&& res@.body == gateway_timeout_body()
                        &&& res@.parts.version == crate::response::HttpVersion::Http11
                        &&& res@.parts.url == old(middleware).req_url()
                        &&& final(self).store() == old(self).store()
                        &&& final(middleware).fetches() == old(middleware).fetches()
                        &&& (sh ==> res@.parts.headers == Map::<Seq<char>, Seq<char>>::empty(
                        ).insert("x-cache"@, "MISS"@).insert("x-cache-lookup"@, "MISS"@))
                        &&& (!sh ==> res@.parts.headers == Map::<Seq<char>, Seq<char>>::empty())
                    })
                    &&& ((sh && spec_request_cacheable(md, gh) && md != CacheMode::Reload) ==> {
                        &&& res@.parts.headers.contains_key("x-cache-lookup"@)
                        &&& (res@.parts.headers["x-cache-lookup"@] == "HIT"@ <==> hit)
                    })
                    &&& ((sh && !hit) ==> {
                        &&& res@.parts.headers.contains_key("x-cache"@)
                        &&& res@.parts.headers["x-cache"@] == "MISS"@
                        &&& res@.parts.headers.contains_key("x-cache-lookup"@)
                        &&& res@.parts.headers["x-cache-lookup"@] == "MISS"@
                    })
                    &&& ((sh && !spec_request_cacheable(md, gh)) ==> {
                        &&& res@.parts.headers.contains_key("x-cache"@)
                        &&& res@.parts.headers["x-cache"@] == "MISS"@
                        &&& res@.parts.headers.contains_key("x-cache-lookup"@)
                        &&& res@.parts.headers["x-cache-lookup"@] == "MISS"@
                    })
                    &&& ((sh && md == CacheMode::Reload) ==> {
                        &&& res@.parts.headers.contains_key("x-cache"@)
                        &&& res@.parts.headers["x-cache"@] == "MISS"@
                        &&& res@.parts.headers.contains_key("x-cache-lookup"@)
                        &&& res@.parts.headers["x-cache-lookup"@] == "MISS"@
                    })
                    &&& ((sh && md == CacheMode::NoCache && hit) ==> {
                        &&& res@.parts.headers.contains_key("x-cache"@)
                        &&& res@.parts.headers["x-cache"@] == "MISS"@
                    })
                    &&& ((sh && md == CacheMode::Default && hit && final(middleware).fetches()
                        == old(middleware).fetches()) ==> {
                        &&& res@.parts.headers.contains_key("x-cache"@)
                        &&& res@.parts.headers["x-cache"@] == "HIT"@
                        &&& res@.parts.headers.contains_key("x-cache-lookup"@)
                        &&& res@.parts.headers["x-cache-lookup"@] == "HIT"@
                        &&& res@.body == old(self).store()[key].response.body
                        &&& final(self).store() == old(self).store()
                    })
                    &&& (sh ==> ((res@.parts.headers.contains_key("x-cache"@)
                        && res@.parts.headers["x-cache"@] == "HIT"@) ==> hit && res@.body == old(
                        self,
                    ).store()[key].response.body))
                    &&& ((md == CacheMode::IgnoreRules && gh && !hit && res@.parts.status == 200)
                        ==> final(self).store().contains_key(key) && final(self).store()[key].response.body == res@.body)
                    &&& ((md == CacheMode::Default && gh && !hit) ==> (final(self).store() == old(
                        self,
                    ).store() || (exists|p: CachePolicy|
                        final(self).store() == #[trigger] old(self).store().insert(
                            key,
                            StoredView { response: res@, policy: p },
                        ))))
                    &&& ((spec_request_cacheable(md, gh) && !hit && md != CacheMode::OnlyIfCached)
                        ==> final(middleware).fetches() == old(middleware).fetches() + 1)
                    &&& ((hit && (md == CacheMode::NoCache || md == CacheMode::Reload))
                        ==> final(middleware).fetches() == old(middleware).fetches() + 1)
                    &&& ((final(self).store().contains_key(key) && (!hit || final(self).store()[key] != old(self).store()[key])) ==> final(self).store()[key].response.body == res@.body)
                    &&& (((md == CacheMode::ForceCache || md == CacheMode::OnlyIfCached || md
                        == CacheMode::IgnoreRules) && gh && hit) ==> {
                        &&& res.spec_warning_code() == Some(112nat)
                        &&& res@.body == old(self).store()[key].response.body
                        &&& final(self).store() == old(self).store()
                        &&& final(middleware).fetches() == old(middleware).fetches()
                        &&& (sh ==> res@.parts.headers.contains_key("x-cache"@)
                            && res@.parts.headers["x-cache"@] == "HIT"@)
                    })
                },
            },
    {
        proof {
            lemma_tag_names_distinct();
        }
        let is_cacheable = self.can_cache_request(middleware)?;
        if !is_cacheable {
            return self.remote_fetch(middleware);
        }
        let parts = middleware.parts()?;
        let cache_key = self.options.create_cache_key(&parts, None);
        if let Some(bust) = &self.options.cache_bust {
            let keys: Vec<String> = bust.keys(&parts, &self.options.cache_key, cache_key.as_str());
            let ghost bk = bust.spec_keys(parts@, self.options.cache_key, cache_key@);
            proof {
                assert(keys.deep_view() == bk);
                assert(forall|j: int|
                    0 <= j < keys@.len() ==> bk[j] == (#[trigger] keys@[j])@);
            }
            let mut i: usize = 0;
            while i < keys.len()
                invariant
                    self.mode == old(self).mode,
                    self.options == old(self).options,
                    i <= keys.len(),
                    bk.len() == keys@.len(),
                    forall|j: int| 0 <= j < keys@.len() ==> bk[j] == (#[trigger] keys@[j])@,
                    only_deletions(old(self).store(), self.manager.store()),
                    forall|j: int|
                        0 <= j < i ==> !self.manager.store().contains_key(#[trigger] bk[j]),
                decreases keys.len() - i,
            {
                self.manager.delete(keys[i].as_str());
                i = i + 1;
            }
        }
        match self.manager.get(cache_key.as_str())? {
            Some((mut res, policy)) => {
                if self.options.cache_status_headers {
                    res.cache_lookup_status(HitOrMiss::HIT);
                }
                strip_stale_warning(&mut res);
                match self.cache_mode(middleware)? {
                    CacheMode::Default => self.conditional_fetch(middleware, res, policy),
                    CacheMode::NoCache => {
                        middleware.force_no_cache()?;
                        let mut out = self.remote_fetch(middleware)?;
                        if self.options.cache_status_headers {
                            out.cache_lookup_status(HitOrMiss::HIT);
                        }
                        Ok(out)
                    },
                    CacheMode::ForceCache | CacheMode::OnlyIfCached | CacheMode::IgnoreRules => {
                        let url = res.parts.url.clone();
                        res.add_warning(&url, 112, "Disconnected operation");
                        if self.options.cache_status_headers {
                            res.cache_status(HitOrMiss::HIT);
                        }
                        Ok(res)
                    },
                    _ => self.remote_fetch(middleware),
                }
            },
            None => {
                match self.cache_mode(middleware)? {
                    CacheMode::OnlyIfCached => {
                        let url = middleware.url()?;
                        let body = crate::response::Body::from(
                            vstd::slice::slice_to_vec("GatewayTimeout".as_bytes()),
                        );
                        let mut res = HttpResponse {
                            body,
                            parts: crate::response::Parts {
                                headers: crate::headers::Headers::new(),
                                status: 504,
                                url,
                                version: crate::response::HttpVersion::Http11,
                            },
                        };
                        if self.options.cache_status_headers {
                            res.cache_status(HitOrMiss::MISS);
                            res.cache_lookup_status(HitOrMiss::MISS);
                        }
                        Ok(res)
                    },
                    _ => self.remote_fetch(middleware),
                }
            },
        }
    }
}

/// The body of the synthesized gateway-timeout response.
pub open spec fn gateway_timeout_body() -> Seq<u8> {
    vstd::utf8::encode_utf8("GatewayTimeout"@)
}

} // verus!
