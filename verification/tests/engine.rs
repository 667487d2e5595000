//! End-to-end scenarios for the decision engine, driven by a scripted
//! adapter and an in-memory store.

use http_cache::Body;
use http_cache::CacheManager;
use http_cache::CacheMode;
use http_cache::Error;
use http_cache::Headers;
use http_cache::HttpCache;
use http_cache::HttpCacheOptions;
use http_cache::HttpResponse;
use http_cache::HttpUrl;
use http_cache::HttpVersion;
use http_cache::Middleware;
use http_cache::Parts;
use http_cache::RequestParts;
use http_cache::XCACHE;
use http_cache::XCACHELOOKUP;

use http_cache_semantics::CacheOptions;
use http_cache_semantics::CachePolicy;

const GET: &str = "GET";

const TEST_BODY: &[u8] = b"test";

const CACHEABLE_PUBLIC: &str = "max-age=86400, public";

const CACHEABLE_PRIVATE: &str = "max-age=86400, private";

const MUST_REVALIDATE: &str = "public, must-revalidate";

const HIT: &str = "HIT";

const MISS: &str = "MISS";

const URL: &str = "http://example.local/";

const HOST: &str = "example.local";

struct MemManager {
    entries: Vec<(String, (HttpResponse, CachePolicy))>,
}

impl MemManager {
    fn new() -> Self {
        MemManager { entries: Vec::new() }
    }
}

impl CacheManager for MemManager {
    fn get(&self, cache_key: &str) -> Result<Option<(HttpResponse, CachePolicy)>, Error> {
        for (k, v) in &self.entries {
            if k == cache_key {
                return Ok(Some((v.0.clone(), v.1.clone())));
            }
        }
        Ok(None)
    }

    fn put(
        &mut self,
        cache_key: String,
        res: HttpResponse,
        policy: CachePolicy,
    ) -> Result<HttpResponse, Error> {
        self.entries.retain(|e| e.0 != cache_key);
        self.entries.push((cache_key, (res.clone(), policy)));
        Ok(res)
    }

    fn delete(&mut self, cache_key: &str) {
        self.entries.retain(|e| e.0 != cache_key);
    }
}

struct MockMiddleware {
    method: String,
    url: String,
    host: String,
    req_headers: Vec<(String, String)>,
    responses: Vec<(u16, Vec<(String, String)>, Vec<u8>)>,
    fetch_count: usize,
    override_mode: Option<CacheMode>,
}

impl MockMiddleware {
    fn new(method: &str) -> Self {
        MockMiddleware {
            method: method.to_string(),
            url: URL.to_string(),
            host: HOST.to_string(),
            req_headers: Vec::new(),
            responses: Vec::new(),
            fetch_count: 0,
            override_mode: None,
        }
    }

    fn push_response(&mut self, status: u16, cache_control: Option<&str>, body: &[u8]) {
        let mut headers: Vec<(String, String)> = Vec::new();
        if let Some(cc) = cache_control {
            headers.push(("cache-control".to_string(), cc.to_string()));
        }
        self.responses.push((status, headers, body.to_vec()));
    }

    fn push_response_with(
        &mut self,
        status: u16,
        headers: Vec<(String, String)>,
        body: &[u8],
    ) {
        self.responses.push((status, headers, body.to_vec()));
    }

    fn http_request_parts(&self) -> http::request::Parts {
        let mut b = http::Request::builder().method(self.method.as_str()).uri(self.url.as_str());
        for (k, v) in &self.req_headers {
            b = b.header(k.as_str(), v.as_str());
        }
        b.body(()).unwrap().into_parts().0
    }
}

fn response_http_parts(res: &HttpResponse) -> http::response::Parts {
    let mut b = http::Response::builder().status(res.parts.status);
    for (k, v) in res.parts.headers.entries().iter() {
        b = b.header(k.as_str(), v.as_str());
    }
    b.body(()).unwrap().into_parts().0
}

fn upsert(headers: &mut Vec<(String, String)>, key: &str, value: &str) {
    for e in headers.iter_mut() {
        if e.0 == key {
            e.1 = value.to_string();
            return;
        }
    }
    headers.push((key.to_string(), value.to_string()));
}

impl Middleware for MockMiddleware {
    fn overridden_cache_mode(&self) -> Option<CacheMode> {
        self.override_mode
    }

    fn is_method_get_head(&self) -> bool {
        self.method == "GET" || self.method == "HEAD"
    }

    fn policy(&self, response: &HttpResponse) -> Result<CachePolicy, Error> {
        Ok(CachePolicy::new(&self.http_request_parts(), &response_http_parts(response)))
    }

    fn policy_with_options(
        &self,
        response: &HttpResponse,
        options: CacheOptions,
    ) -> Result<CachePolicy, Error> {
        Ok(CachePolicy::new_options(
            &self.http_request_parts(),
            &response_http_parts(response),
            std::time::SystemTime::now(),
            options,
        ))
    }

    fn update_headers(&mut self, headers: &Vec<(String, String)>) -> Result<(), Error> {
        for (k, v) in headers.iter() {
            upsert(&mut self.req_headers, k.as_str(), v.as_str());
        }
        Ok(())
    }

    fn force_no_cache(&mut self) -> Result<(), Error> {
        upsert(&mut self.req_headers, "cache-control", "no-cache");
        Ok(())
    }

    fn parts(&self) -> Result<RequestParts, Error> {
        let mut headers = Headers::new();
        for (k, v) in &self.req_headers {
            headers.insert(k.clone(), v.clone());
        }
        Ok(RequestParts { method: self.method.clone(), uri: self.url.clone(), headers })
    }

    fn url(&self) -> Result<HttpUrl, Error> {
        Ok(HttpUrl { full: self.url.clone(), host: Some(self.host.clone()) })
    }

    fn method(&self) -> Result<String, Error> {
        Ok(self.method.clone())
    }

    fn remote_fetch(&mut self) -> Result<HttpResponse, Error> {
        self.fetch_count += 1;
        if self.responses.is_empty() {
            return Err(Error::AdapterFailure("no scripted response".to_string()));
        }
        let (status, headers, body) = self.responses.remove(0);
        let mut h = Headers::new();
        for (k, v) in headers {
            h.insert(k, v);
        }
        Ok(HttpResponse {
            body: Body::from(body),
            parts: Parts {
                headers: h,
                status,
                url: HttpUrl { full: self.url.clone(), host: Some(self.host.clone()) },
                version: HttpVersion::Http11,
            },
        })
    }
}

fn cache_with(mode: CacheMode) -> HttpCache<MemManager> {
    HttpCache { mode, manager: MemManager::new(), options: HttpCacheOptions::default() }
}

fn header<'a>(res: &'a HttpResponse, name: &str) -> Option<&'a String> {
    res.parts.headers.get(name)
}

fn get_key() -> String {
    format!("{}:{}", GET, URL)
}

#[test]
fn default_mode() {
    let mut cache = cache_with(CacheMode::Default);
    let mut m = MockMiddleware::new(GET);
    m.push_response(200, Some(CACHEABLE_PUBLIC), TEST_BODY);

    // Cold pass to load cache
    let res = cache.run(&mut m).unwrap();
    assert_eq!(header(&res, XCACHELOOKUP).unwrap().as_str(), MISS);
    assert_eq!(header(&res, XCACHE).unwrap().as_str(), MISS);

    // Try to load cached object
    let data = cache.manager.get(&get_key()).unwrap();
    assert!(data.is_some());

    // Hot pass to make sure the expected response was returned
    let res = cache.run(&mut m).unwrap();
    assert_eq!(res.body.as_bytes().unwrap(), TEST_BODY);
    assert_eq!(header(&res, XCACHELOOKUP).unwrap().as_str(), HIT);
    assert_eq!(header(&res, XCACHE).unwrap().as_str(), HIT);
    assert_eq!(m.fetch_count, 1);
}

#[test]
fn default_mode_with_options() {
    let mut cache = cache_with(CacheMode::Default);
    let mut opts = CacheOptions::default();
    opts.shared = false;
    cache.options.cache_options = Some(opts);
    let mut m = MockMiddleware::new(GET);
    m.push_response(200, Some(CACHEABLE_PRIVATE), TEST_BODY);

    // Cold pass to load cache
    cache.run(&mut m).unwrap();

    // Try to load cached object
    let data = cache.manager.get(&get_key()).unwrap();
    assert!(data.is_some());

    // Hot pass to make sure the expected response was returned
    let res = cache.run(&mut m).unwrap();
    assert_eq!(res.body.as_bytes().unwrap(), TEST_BODY);
    assert_eq!(m.fetch_count, 1);
}

#[test]
fn default_mode_no_cache_response() {
    let mut cache = cache_with(CacheMode::Default);
    let mut m = MockMiddleware::new(GET);
    m.push_response(200, Some("no-cache"), TEST_BODY);
    m.push_response(200, Some("no-cache"), TEST_BODY);

    // Cold pass to load cache
    let res = cache.run(&mut m).unwrap();
    assert_eq!(header(&res, XCACHELOOKUP).unwrap().as_str(), MISS);
    assert_eq!(header(&res, XCACHE).unwrap().as_str(), MISS);

    // Try to load cached object
    let data = cache.manager.get(&get_key()).unwrap();
    assert!(data.is_some());

    // Hot pass: served after revalidation, not from cache directly
    let res = cache.run(&mut m).unwrap();
    assert_eq!(res.body.as_bytes().unwrap(), TEST_BODY);
    assert_eq!(header(&res, XCACHELOOKUP).unwrap().as_str(), HIT);
    assert_eq!(header(&res, XCACHE).unwrap().as_str(), MISS);
    assert_eq!(m.fetch_count, 2);
}

#[test]
fn removes_warning() {
    let mut cache = cache_with(CacheMode::Default);
    let mut m = MockMiddleware::new(GET);
    m.push_response_with(
        200,
        vec![
            ("cache-control".to_string(), CACHEABLE_PUBLIC.to_string()),
            ("warning".to_string(), "101 Test".to_string()),
        ],
        TEST_BODY,
    );

    // Cold pass to load cache
    let res = cache.run(&mut m).unwrap();
    assert_eq!(header(&res, XCACHELOOKUP).unwrap().as_str(), MISS);
    assert_eq!(header(&res, XCACHE).unwrap().as_str(), MISS);

    // Try to load cached object
    let data = cache.manager.get(&get_key()).unwrap();
    assert!(data.is_some());

    // Hot pass: the stored 1xx warning is stripped on serve
    let res = cache.run(&mut m).unwrap();
    assert_eq!(res.body.as_bytes().unwrap(), TEST_BODY);
    assert_eq!(header(&res, XCACHELOOKUP).unwrap().as_str(), HIT);
    assert_eq!(header(&res, XCACHE).unwrap().as_str(), HIT);
    assert!(header(&res, "warning").is_none());
    assert_eq!(m.fetch_count, 1);
}

#[test]
fn no_store_mode() {
    let mut cache = cache_with(CacheMode::NoStore);
    let mut m = MockMiddleware::new(GET);
    m.push_response(200, Some(CACHEABLE_PUBLIC), TEST_BODY);
    m.push_response(200, Some(CACHEABLE_PUBLIC), TEST_BODY);

    // Remote request but should not cache
    cache.run(&mut m).unwrap();

    // Try to load cached object
    let data = cache.manager.get(&get_key()).unwrap();
    assert!(data.is_none());

    // To verify the endpoint receives the request rather than a cache hit
    let res = cache.run(&mut m).unwrap();
    assert_eq!(header(&res, XCACHELOOKUP).unwrap().as_str(), MISS);
    assert_eq!(header(&res, XCACHE).unwrap().as_str(), MISS);
    assert_eq!(m.fetch_count, 2);
}

#[test]
fn no_cache_mode() {
    let mut cache = cache_with(CacheMode::NoCache);
    let mut m = MockMiddleware::new(GET);
    m.push_response(200, Some(CACHEABLE_PUBLIC), TEST_BODY);
    m.push_response(200, Some(CACHEABLE_PUBLIC), TEST_BODY);

    // Remote request and should cache
    let res = cache.run(&mut m).unwrap();
    assert_eq!(header(&res, XCACHELOOKUP).unwrap().as_str(), MISS);
    assert_eq!(header(&res, XCACHE).unwrap().as_str(), MISS);

    // Try to load cached object
    let data = cache.manager.get(&get_key()).unwrap();
    assert!(data.is_some());

    // To verify the endpoint receives the request rather than a cache hit
    let res = cache.run(&mut m).unwrap();
    assert_eq!(header(&res, XCACHELOOKUP).unwrap().as_str(), HIT);
    assert_eq!(header(&res, XCACHE).unwrap().as_str(), MISS);
    assert_eq!(m.fetch_count, 2);
}

#[test]
fn force_cache_mode() {
    let mut cache = cache_with(CacheMode::ForceCache);
    let mut m = MockMiddleware::new(GET);
    m.push_response(200, Some("max-age=0, public"), TEST_BODY);

    // Should result in a cache miss and a remote request
    let res = cache.run(&mut m).unwrap();
    assert_eq!(header(&res, XCACHELOOKUP).unwrap().as_str(), MISS);
    assert_eq!(header(&res, XCACHE).unwrap().as_str(), MISS);

    // Try to load cached object
    let data = cache.manager.get(&get_key()).unwrap();
    assert!(data.is_some());

    // Should result in a cache hit and no remote request
    let res = cache.run(&mut m).unwrap();
    assert_eq!(header(&res, XCACHELOOKUP).unwrap().as_str(), HIT);
    assert_eq!(header(&res, XCACHE).unwrap().as_str(), HIT);
    assert_eq!(m.fetch_count, 1);
}

#[test]
fn ignore_rules_mode() {
    let mut cache = cache_with(CacheMode::IgnoreRules);
    let mut m = MockMiddleware::new(GET);
    m.push_response(200, Some("no-store, max-age=0, public"), TEST_BODY);

    // Should result in a cache miss and a remote request
    let res = cache.run(&mut m).unwrap();
    assert_eq!(header(&res, XCACHELOOKUP).unwrap().as_str(), MISS);
    assert_eq!(header(&res, XCACHE).unwrap().as_str(), MISS);

    // Try to load cached object: stored although the rules forbid it
    let data = cache.manager.get(&get_key()).unwrap();
    assert!(data.is_some());

    // Should result in a cache hit and no remote request
    let res = cache.run(&mut m).unwrap();
    assert_eq!(header(&res, XCACHELOOKUP).unwrap().as_str(), HIT);
    assert_eq!(header(&res, XCACHE).unwrap().as_str(), HIT);
    assert_eq!(m.fetch_count, 1);
}

#[test]
fn ignore_rules_non_get_head_not_stored() {
    // Only GET or HEAD requests may produce stored entries, even under
    // IgnoreRules; a successful POST invalidates the GET-keyed sibling.
    let mut cache = cache_with(CacheMode::IgnoreRules);
    let mut m_get = MockMiddleware::new(GET);
    m_get.push_response(200, Some(CACHEABLE_PUBLIC), TEST_BODY);
    cache.run(&mut m_get).unwrap();
    assert!(cache.manager.get(&get_key()).unwrap().is_some());

    let mut m_post = MockMiddleware::new("POST");
    m_post.push_response(200, None, b"created");
    cache.run(&mut m_post).unwrap();
    assert!(cache.manager.get(&format!("POST:{}", URL)).unwrap().is_none());
    assert!(cache.manager.get(&get_key()).unwrap().is_none());
}

#[test]
fn delete_after_non_get_head_method_request() {
    let mut cache = cache_with(CacheMode::Default);
    let mut m_get = MockMiddleware::new(GET);
    m_get.push_response(200, Some(CACHEABLE_PUBLIC), TEST_BODY);

    // Cold pass to load cache
    let res = cache.run(&mut m_get).unwrap();
    assert_eq!(header(&res, XCACHELOOKUP).unwrap().as_str(), MISS);
    assert_eq!(header(&res, XCACHE).unwrap().as_str(), MISS);

    // Try to load cached object
    let data = cache.manager.get(&get_key()).unwrap();
    assert!(data.is_some());

    // Post request to make sure the cached object at the same resource
    // was deleted
    let mut m_post = MockMiddleware::new("POST");
    m_post.push_response(201, None, b"created");
    cache.run(&mut m_post).unwrap();

    let data = cache.manager.get(&get_key()).unwrap();
    assert!(data.is_none());
}

#[test]
fn revalidation_304() {
    let mut cache = cache_with(CacheMode::Default);
    let mut m = MockMiddleware::new(GET);
    m.push_response(200, Some(MUST_REVALIDATE), TEST_BODY);
    m.push_response(304, None, b"");

    // Cold pass to load cache
    let res = cache.run(&mut m).unwrap();
    assert_eq!(header(&res, XCACHELOOKUP).unwrap().as_str(), MISS);
    assert_eq!(header(&res, XCACHE).unwrap().as_str(), MISS);

    // Try to load cached object
    let data = cache.manager.get(&get_key()).unwrap();
    assert!(data.is_some());

    // Hot pass to make sure the revalidation request was sent
    let res = cache.run(&mut m).unwrap();
    assert_eq!(res.body.as_bytes().unwrap(), TEST_BODY);
    assert_eq!(header(&res, XCACHELOOKUP).unwrap().as_str(), HIT);
    assert_eq!(header(&res, XCACHE).unwrap().as_str(), HIT);
    assert_eq!(m.fetch_count, 2);
}

#[test]
fn revalidation_200() {
    let mut cache = cache_with(CacheMode::Default);
    let mut m = MockMiddleware::new(GET);
    m.push_response(200, Some(MUST_REVALIDATE), TEST_BODY);
    m.push_response(200, Some(MUST_REVALIDATE), b"updated");

    // Cold pass to load cache
    let res = cache.run(&mut m).unwrap();
    assert_eq!(header(&res, XCACHELOOKUP).unwrap().as_str(), MISS);
    assert_eq!(header(&res, XCACHE).unwrap().as_str(), MISS);

    // Try to load cached object
    let data = cache.manager.get(&get_key()).unwrap();
    assert!(data.is_some());

    // Hot pass to make sure the revalidation request was sent
    let res = cache.run(&mut m).unwrap();
    assert_eq!(res.body.as_bytes().unwrap(), b"updated");
    assert_eq!(header(&res, XCACHELOOKUP).unwrap().as_str(), HIT);
    assert_eq!(header(&res, XCACHE).unwrap().as_str(), MISS);
    assert_eq!(m.fetch_count, 2);

    // A later lookup returns the new body
    let data = cache.manager.get(&get_key()).unwrap().unwrap();
    assert_eq!(data.0.body.as_bytes().unwrap(), b"updated");
}

#[test]
fn revalidation_500() {
    let mut cache = cache_with(CacheMode::Default);
    let mut m = MockMiddleware::new(GET);
    m.push_response(200, Some(MUST_REVALIDATE), TEST_BODY);
    m.push_response(500, None, b"");

    // Cold pass to load cache
    let res = cache.run(&mut m).unwrap();
    assert_eq!(header(&res, XCACHELOOKUP).unwrap().as_str(), MISS);
    assert_eq!(header(&res, XCACHE).unwrap().as_str(), MISS);

    // Try to load cached object
    let data = cache.manager.get(&get_key()).unwrap();
    assert!(data.is_some());

    // Hot pass: the stale response is served with a warning
    let res = cache.run(&mut m).unwrap();
    assert_eq!(res.body.as_bytes().unwrap(), TEST_BODY);
    assert!(header(&res, "warning").is_some());
    assert!(header(&res, "warning").unwrap().as_str().starts_with("111"));
    assert_eq!(header(&res, XCACHELOOKUP).unwrap().as_str(), HIT);
    assert_eq!(header(&res, XCACHE).unwrap().as_str(), HIT);
    assert_eq!(m.fetch_count, 2);
}

#[test]
fn miss() {
    let mut cache = cache_with(CacheMode::OnlyIfCached);
    let mut m = MockMiddleware::new(GET);
    m.push_response(200, Some(CACHEABLE_PUBLIC), TEST_BODY);

    // Should result in a cache miss and no remote request
    let res = cache.run(&mut m).unwrap();
    assert_eq!(header(&res, XCACHELOOKUP).unwrap().as_str(), MISS);
    assert_eq!(header(&res, XCACHE).unwrap().as_str(), MISS);
    assert_eq!(res.parts.status, 504);
    assert_eq!(res.body.as_bytes().unwrap(), b"GatewayTimeout");
    assert_eq!(res.parts.version, HttpVersion::Http11);
    assert_eq!(m.fetch_count, 0);

    // Try to load cached object
    let data = cache.manager.get(&get_key()).unwrap();
    assert!(data.is_none());
}

#[test]
fn hit() {
    let mut cache = cache_with(CacheMode::Default);
    let mut m = MockMiddleware::new(GET);
    m.push_response(200, Some(CACHEABLE_PUBLIC), TEST_BODY);

    // Cold pass to load the cache
    let res = cache.run(&mut m).unwrap();
    assert_eq!(header(&res, XCACHELOOKUP).unwrap().as_str(), MISS);
    assert_eq!(header(&res, XCACHE).unwrap().as_str(), MISS);

    // Try to load cached object
    let data = cache.manager.get(&get_key()).unwrap();
    assert!(data.is_some());

    // Switch to only-if-cached over the same store
    let manager = cache.manager;
    let mut cache =
        HttpCache { mode: CacheMode::OnlyIfCached, manager, options: HttpCacheOptions::default() };

    // Should result in a cache hit and no remote request
    let res = cache.run(&mut m).unwrap();
    assert_eq!(res.body.as_bytes().unwrap(), TEST_BODY);
    assert_eq!(header(&res, XCACHELOOKUP).unwrap().as_str(), HIT);
    assert_eq!(header(&res, XCACHE).unwrap().as_str(), HIT);
    assert_eq!(m.fetch_count, 1);
}

#[test]
fn overridden_mode_wins() {
    let mut cache = cache_with(CacheMode::Default);
    let mut m = MockMiddleware::new(GET);
    m.override_mode = Some(CacheMode::OnlyIfCached);

    // The adapter's override takes precedence over the engine's mode:
    // a cold only-if-cached request is refused with the synthesized 504.
    let res = cache.run(&mut m).unwrap();
    assert_eq!(res.parts.status, 504);
    assert_eq!(m.fetch_count, 0);
}

#[test]
fn run_no_cache_deletes_get_entry() {
    let mut cache = cache_with(CacheMode::Default);
    let mut m = MockMiddleware::new(GET);
    m.push_response(200, Some(CACHEABLE_PUBLIC), TEST_BODY);
    cache.run(&mut m).unwrap();
    assert!(cache.manager.get(&get_key()).unwrap().is_some());

    let mut m2 = MockMiddleware::new(GET);
    cache.run_no_cache(&mut m2).unwrap();
    assert!(cache.manager.get(&get_key()).unwrap().is_none());
}

#[test]
fn revalidation_network_error_recovers() {
    let mut cache = cache_with(CacheMode::Default);
    let mut m = MockMiddleware::new(GET);
    // Stale but not must-revalidate: a failed revalidation serves the
    // stale response with warning 111.
    m.push_response(200, Some("max-age=0, public"), TEST_BODY);

    cache.run(&mut m).unwrap();
    assert!(cache.manager.get(&get_key()).unwrap().is_some());

    // No scripted response: the next fetch fails.
    let res = cache.run(&mut m).unwrap();
    assert_eq!(res.body.as_bytes().unwrap(), TEST_BODY);
    assert!(header(&res, "warning").unwrap().as_str().starts_with("111"));
    assert_eq!(header(&res, XCACHE).unwrap().as_str(), HIT);
    assert_eq!(m.fetch_count, 2);
}

#[test]
fn revalidation_network_error_propagates() {
    let mut cache = cache_with(CacheMode::Default);
    let mut m = MockMiddleware::new(GET);
    // must-revalidate forbids serving stale on a failed revalidation.
    m.push_response(200, Some(MUST_REVALIDATE), TEST_BODY);

    cache.run(&mut m).unwrap();
    assert!(cache.manager.get(&get_key()).unwrap().is_some());

    // No scripted response: the next fetch fails and the error surfaces.
    let err = cache.run(&mut m).unwrap_err();
    assert!(matches!(err, Error::AdapterFailure(_)));
}

#[test]
fn bad_request_header_surfaces() {
    let mut cache = cache_with(CacheMode::Default);
    let mut m = MockMiddleware::new(GET);
    m.push_response(200, Some(MUST_REVALIDATE), TEST_BODY);
    cache.run(&mut m).unwrap();

    // A request header with an invalid name cannot be rebuilt for the
    // policy evaluator.
    m.req_headers.push(("bad name".to_string(), "x".to_string()));
    let err = cache.run(&mut m).unwrap_err();
    assert!(matches!(err, Error::BadHeader));
}

struct FailingManager;

impl CacheManager for FailingManager {
    fn get(&self, _cache_key: &str) -> Result<Option<(HttpResponse, CachePolicy)>, Error> {
        Err(Error::StorageFailure("down".to_string()))
    }

    fn put(
        &mut self,
        _cache_key: String,
        _res: HttpResponse,
        _policy: CachePolicy,
    ) -> Result<HttpResponse, Error> {
        Err(Error::StorageFailure("down".to_string()))
    }

    fn delete(&mut self, _cache_key: &str) {}
}

#[test]
fn storage_failure_surfaces() {
    let mut cache = HttpCache {
        mode: CacheMode::Default,
        manager: FailingManager,
        options: HttpCacheOptions::default(),
    };
    let mut m = MockMiddleware::new(GET);
    m.push_response(200, Some(CACHEABLE_PUBLIC), TEST_BODY);
    let err = cache.run(&mut m).unwrap_err();
    assert!(matches!(err, Error::StorageFailure(_)));
}

struct FailingPolicyMiddleware(MockMiddleware);

impl Middleware for FailingPolicyMiddleware {
    fn overridden_cache_mode(&self) -> Option<CacheMode> {
        self.0.overridden_cache_mode()
    }

    fn is_method_get_head(&self) -> bool {
        self.0.is_method_get_head()
    }

    fn policy(&self, _response: &HttpResponse) -> Result<CachePolicy, Error> {
        Err(Error::PolicyFailure("inconsistent".to_string()))
    }

    fn policy_with_options(
        &self,
        _response: &HttpResponse,
        _options: CacheOptions,
    ) -> Result<CachePolicy, Error> {
        Err(Error::PolicyFailure("inconsistent".to_string()))
    }

    fn update_headers(&mut self, headers: &Vec<(String, String)>) -> Result<(), Error> {
        self.0.update_headers(headers)
    }

    fn force_no_cache(&mut self) -> Result<(), Error> {
        self.0.force_no_cache()
    }

    fn parts(&self) -> Result<RequestParts, Error> {
        self.0.parts()
    }

    fn url(&self) -> Result<HttpUrl, Error> {
        self.0.url()
    }

    fn method(&self) -> Result<String, Error> {
        self.0.method()
    }

    fn remote_fetch(&mut self) -> Result<HttpResponse, Error> {
        self.0.remote_fetch()
    }
}

#[test]
fn policy_failure_surfaces() {
    let mut cache = cache_with(CacheMode::Default);
    let mut inner = MockMiddleware::new(GET);
    inner.push_response(200, Some(CACHEABLE_PUBLIC), TEST_BODY);
    let mut m = FailingPolicyMiddleware(inner);
    let err = cache.run(&mut m).unwrap_err();
    assert!(matches!(err, Error::PolicyFailure(_)));
}

struct PostKey;

impl http_cache::CacheKey for PostKey {
    fn key(&self, parts: &RequestParts) -> String {
        format!("custom:{}", parts.uri)
    }
}

#[test]
fn custom_cache_key() {
    let mut cache = cache_with(CacheMode::Default);
    cache.options.cache_key = Some(std::sync::Arc::new(PostKey));
    let mut m = MockMiddleware::new(GET);
    m.push_response(200, Some(CACHEABLE_PUBLIC), TEST_BODY);

    cache.run(&mut m).unwrap();
    assert!(cache.manager.get(&get_key()).unwrap().is_none());
    assert!(cache.manager.get(&format!("custom:{}", URL)).unwrap().is_some());
}

struct AlwaysNoStore;

impl http_cache::CacheModeFn for AlwaysNoStore {
    fn mode(&self, _parts: &RequestParts) -> CacheMode {
        CacheMode::NoStore
    }
}

#[test]
fn cache_mode_fn_override() {
    let mut cache = cache_with(CacheMode::Default);
    cache.options.cache_mode_fn = Some(std::sync::Arc::new(AlwaysNoStore));
    let mut m = MockMiddleware::new(GET);
    m.push_response(200, Some(CACHEABLE_PUBLIC), TEST_BODY);

    cache.run(&mut m).unwrap();
    assert!(cache.manager.get(&get_key()).unwrap().is_none());
    assert_eq!(m.fetch_count, 1);
}

struct BustAll;

impl http_cache::CacheBust for BustAll {
    fn keys(
        &self,
        parts: &RequestParts,
        _cache_key: &Option<std::sync::Arc<dyn http_cache::CacheKey>>,
        _default_key: &str,
    ) -> Vec<String> {
        vec![format!("GET:{}other", parts.uri)]
    }
}

#[test]
fn cache_bust_deletes_named_keys() {
    let mut cache = cache_with(CacheMode::Default);
    let mut m_other = MockMiddleware::new(GET);
    m_other.url = format!("{}other", URL);
    m_other.push_response(200, Some(CACHEABLE_PUBLIC), TEST_BODY);
    cache.run(&mut m_other).unwrap();
    let other_key = format!("GET:{}other", URL);
    assert!(cache.manager.get(&other_key).unwrap().is_some());

    cache.options.cache_bust = Some(std::sync::Arc::new(BustAll));
    let mut m = MockMiddleware::new(GET);
    m.push_response(200, Some(CACHEABLE_PUBLIC), TEST_BODY);
    cache.run(&mut m).unwrap();
    assert!(cache.manager.get(&other_key).unwrap().is_none());
}
