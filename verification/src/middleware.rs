//! The client-adapter contract: the engine's abstract view of an in-flight
//! request. Adapters translate a concrete HTTP client's request into this
//! interface; the engine's proofs rest on the contracts stated here.

use vstd::prelude::*;

use http_cache_semantics::CacheOptions;
use http_cache_semantics::CachePolicy;

use crate::CacheMode;
use crate::error::Error;
use crate::headers::Headers;
use crate::headers::merged;
use crate::response::HttpResponse;
use crate::response::HttpUrl;
use crate::response::UrlView;

verus! {

/// The mathematical value of a [`RequestParts`].
pub struct RequestView {
    /// The request method.
    pub method: Seq<char>,
    /// The full request URI.
    pub uri: Seq<char>,
    /// The request headers.
    pub headers: Map<Seq<char>, Seq<char>>,
}

/// A serializable request head: method, full URI and headers. Adapters
/// build it from their own request type.
#[derive(Debug)]
pub struct RequestParts {
    /// The request method, uppercase.
    pub method: String,
    /// The full request URI.
    pub uri: String,
    /// The request headers.
    pub headers: Headers,
}

impl View for RequestParts {
    type V = RequestView;

    open spec fn view(&self) -> RequestView {
        RequestView { method: self.method@, uri: self.uri@, headers: self.headers@ }
    }
}

impl RequestParts {
    /// True when the header container is well formed.
    pub open spec fn wf(&self) -> bool {
        self.headers.wf()
    }
}

/// Describes the functionality required for interfacing with HTTP client
/// middleware. The engine is verified against the contracts below; an
/// adapter that implements them truthfully gets the engine's guarantees.
pub trait Middleware: Sized {
    /// The request method as the adapter reports it, stable across the
    /// request.
    open spec fn req_method(&self) -> Seq<char> {
        Seq::empty()
    }

    /// The full request URI as the key derivation uses it, stable across
    /// the request.
    open spec fn req_uri(&self) -> Seq<char> {
        Seq::empty()
    }

    /// The request URL, stable across the request.
    open spec fn req_url(&self) -> UrlView {
        UrlView { full: Seq::empty(), host: None }
    }

    /// The outgoing request headers, as the adapter holds them now.
    open spec fn req_headers(&self) -> Map<Seq<char>, Seq<char>> {
        Map::empty()
    }

    /// The per-request cache-mode override, if any.
    open spec fn spec_overridden_mode(&self) -> Option<CacheMode> {
        None
    }

    /// How many remote fetches the adapter has performed.
    open spec fn fetches(&self) -> nat {
        0
    }

    /// Allows the cache mode to be overridden.
    ///
    /// This overrides any cache mode set in the configuration, including
    /// `cache_mode_fn`.
    fn overridden_cache_mode(&self) -> (r: Option<CacheMode>)
        ensures
            r == self.spec_overridden_mode(),
    ;

    /// Determines if the request method is either GET or HEAD.
    fn is_method_get_head(&self) -> (r: bool)
        ensures
            r == (self.req_method() == "GET"@ || self.req_method() == "HEAD"@),
    ;

    /// Returns a new cache policy with default options for `response`.
    fn policy(&self, response: &HttpResponse) -> (r: Result<CachePolicy, Error>)
    ;

    /// Returns a new cache policy with custom options for `response`.
    fn policy_with_options(&self, response: &HttpResponse, options: CacheOptions) -> (r: Result<
        CachePolicy,
        Error,
    >)
    ;

    /// Attempts to update the request headers with the passed header list,
    /// carrying revalidation hints to the origin: on success each entry is
    /// inserted in order, overwriting existing names.
    fn update_headers(&mut self, headers: &Vec<(String, String)>) -> (r: Result<(), Error>)
        ensures
            final(self).req_method() == old(self).req_method(),
            final(self).req_uri() == old(self).req_uri(),
            final(self).req_url() == old(self).req_url(),
            final(self).spec_overridden_mode() == old(self).spec_overridden_mode(),
            final(self).fetches() == old(self).fetches(),
            r is Ok ==> final(self).req_headers() == merged(old(self).req_headers(), headers@),
    ;

    /// Attempts to force the `no-cache` directive on the request, so that
    /// upstream intermediaries will not serve a cached reply.
    fn force_no_cache(&mut self) -> (r: Result<(), Error>)
        ensures
            final(self).req_method() == old(self).req_method(),
            final(self).req_uri() == old(self).req_uri(),
            final(self).req_url() == old(self).req_url(),
            final(self).spec_overridden_mode() == old(self).spec_overridden_mode(),
            final(self).fetches() == old(self).fetches(),
    ;

    /// Attempts to construct the serializable request head.
    fn parts(&self) -> (r: Result<RequestParts, Error>)
        ensures
            match r {
                Ok(p) => p.wf() && p.method@ == self.req_method() && p.uri@ == self.req_uri()
                    && p.headers@ == self.req_headers(),
                Err(_) => true,
            },
    ;

    /// Attempts to determine the requested url. An HTTP request URL
    /// carries a host component.
    fn url(&self) -> (r: Result<HttpUrl, Error>)
        ensures
            match r {
                Ok(u) => u@ == self.req_url() && u@.host is Some,
                Err(_) => true,
            },
    ;

    /// Attempts to determine the request method.
    fn method(&self) -> (r: Result<String, Error>)
        ensures
            match r {
                Ok(m) => m@ == self.req_method(),
                Err(_) => true,
            },
    ;

    /// Attempts to fetch the upstream resource, leaving the outgoing
    /// request as it stands. Always counts as one fetch, whether or not it
    /// succeeds; a returned response is well formed and carries a URL with
    /// a host.
    fn remote_fetch(&mut self) -> (r: Result<HttpResponse, Error>)
        ensures
            final(self).req_method() == old(self).req_method(),
            final(self).req_uri() == old(self).req_uri(),
            final(self).req_url() == old(self).req_url(),
            final(self).req_headers() == old(self).req_headers(),
            final(self).spec_overridden_mode() == old(self).spec_overridden_mode(),
            final(self).fetches() == old(self).fetches() + 1,
            match r {
                Ok(res) => res.wf() && res@.parts.url.host is Some,
                Err(_) => true,
            },
    ;
}

} // verus!
