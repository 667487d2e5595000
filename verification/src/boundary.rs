//! The boundary to the outside crates: declarations of their types, and
//! the trusted wrappers through which the engine calls the cache-policy
//! evaluator and reads the clock. Verus believes the contracts stated
//! here; everything else in the crate is proved.

use vstd::prelude::*;

use http_cache_semantics::CachePolicy;

use crate::error::Error;
use crate::middleware::RequestParts;
use crate::response::Parts;

verus! {

#[verifier::external_type_specification]
#[verifier::external_body]
pub struct ExCachePolicy(http_cache_semantics::CachePolicy);

#[verifier::external_type_specification]
#[verifier::external_body]
pub struct ExCacheOptions(http_cache_semantics::CacheOptions);

#[verifier::external_type_specification]
#[verifier::external_body]
#[verifier::reject_recursive_types(T)]
pub struct ExHeaderMap<T>(http::HeaderMap<T>);

#[verifier::external_type_specification]
#[verifier::external_body]
pub struct ExHeaderValue(http::HeaderValue);

#[verifier::external_type_specification]
#[verifier::external_body]
#[verifier::reject_recursive_types(T)]
pub struct ExRequest<T>(http::Request<T>);

#[verifier::external_type_specification]
#[verifier::external_body]
#[verifier::reject_recursive_types(T)]
pub struct ExResponse<T>(http::Response<T>);

/// Relies on `http_cache_semantics::CachePolicy::is_storable`: whether the
/// policy admits storing the response it was built from. The engine takes
/// the verdict as an input to its own storability decision.
pub assume_specification[ http_cache_semantics::CachePolicy::is_storable ](
    p: &http_cache_semantics::CachePolicy,
) -> bool
;

/// What the policy evaluator decided about a stored response before the
/// request went out: serve it as fresh, or revalidate. Carries only the
/// header lists of the evaluator's returned parts, which is all the engine
/// merges.
pub enum Freshness {
    /// The stored response may be served without contacting the origin;
    /// merge these headers into it.
    Fresh(Vec<(String, String)>),
    /// The origin must be contacted first.
    Stale {
        /// Headers for the outgoing request, carrying validators when
        /// appropriate.
        request: Vec<(String, String)>,
        /// False when the stored entry is for some other resource that is
        /// not semantically the same as the request.
        matches: bool,
    },
}

/// What the policy evaluator decided after a revalidation response came
/// back: either way, a refreshed policy and headers to merge into the
/// stored response.
pub enum Revalidated {
    /// The stored body can be used.
    NotModified(CachePolicy, Vec<(String, String)>),
    /// The body has changed and the stored one cannot be used.
    Modified(CachePolicy, Vec<(String, String)>),
}

/// Relies on `http::HeaderMap` iteration and `HeaderValue::to_str`:
/// converts each header to a pair of strings, failing on a value that is
/// not valid UTF-8.
#[verifier::external_body]
fn header_list(h: &http::HeaderMap) -> (r: Result<Vec<(String, String)>, Error>) {
    let mut out = Vec::new();
    for (k, v) in h.iter() {
        match v.to_str() {
            Ok(s) => out.push((k.as_str().to_string(), s.to_string())),
            Err(_) => return Err(Error::BadHeader),
        }
    }
    Ok(out)
}

/// Relies on `http::request::Builder` to rebuild an outgoing request head
/// from its plain parts; fails on an invalid method, URI, header name or
/// header value.
#[verifier::external_body]
fn request_head(req: &RequestParts) -> (r: Result<http::Request<()>, Error>) {
    let mut b = http::Request::builder().method(req.method.as_str()).uri(req.uri.as_str());
    for (k, v) in req.headers.entries().iter() {
        b = b.header(k.as_str(), v.as_str());
    }
    b.body(()).map_err(|_| Error::BadHeader)
}

/// Relies on `http::response::Builder` to rebuild a response head from
/// its plain parts; fails on an invalid status, header name or header
/// value.
#[verifier::external_body]
fn response_head(res: &Parts) -> (r: Result<http::Response<()>, Error>) {
    let mut b = http::Response::builder().status(res.status);
    for (k, v) in res.headers.entries().iter() {
        b = b.header(k.as_str(), v.as_str());
    }
    b.body(()).map_err(|_| Error::BadHeader)
}

/// Relies on `http_cache_semantics::CachePolicy::before_request`,
/// evaluated at the current time on the rebuilt request head. Which way it
/// decides depends on the policy and the clock, so nothing is promised of
/// the outcome; the engine handles every case.
#[verifier::external_body]
pub(crate) fn policy_before_request(p: &CachePolicy, req: &RequestParts) -> (r: Result<
    Freshness,
    Error,
>) {
    let head = request_head(req)?;
    Ok(match p.before_request(&head, std::time::SystemTime::now()) {
        http_cache_semantics::BeforeRequest::Fresh(rp) => Freshness::Fresh(header_list(&rp.headers)?),
        http_cache_semantics::BeforeRequest::Stale { request, matches } => Freshness::Stale {
            request: header_list(&request.headers)?,
            matches,
        },
    })
}

/// Relies on `http_cache_semantics::CachePolicy::after_response`,
/// evaluated at the current time on the rebuilt request head and the
/// conditional response's head. Which way it decides depends on the policy
/// and the clock, so nothing is promised of the outcome; the engine
/// handles every case.
#[verifier::external_body]
pub(crate) fn policy_after_response(p: &CachePolicy, req: &RequestParts, cond: &Parts) -> (r:
    Result<Revalidated, Error>) {
    let head = request_head(req)?;
    let cond_head = response_head(cond)?;
    Ok(match p.after_response(&head, &cond_head, std::time::SystemTime::now()) {
        http_cache_semantics::AfterResponse::NotModified(np, rp) => Revalidated::NotModified(
            np,
            header_list(&rp.headers)?,
        ),
        http_cache_semantics::AfterResponse::Modified(np, rp) => Revalidated::Modified(
            np,
            header_list(&rp.headers)?,
        ),
    })
}

/// Relies on `httpdate::fmt_http_date` to render the current time as an
/// HTTP-date. The result depends on the clock, so nothing is promised of
/// it.
#[verifier::external_body]
pub(crate) fn http_date_now() -> (r: String) {
    httpdate::fmt_http_date(std::time::SystemTime::now())
}

} // verus!
