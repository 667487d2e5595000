//! The response model: HTTP version, response URL, body, serializable
//! head, and the header-level operations the engine performs on a
//! response (warning bookkeeping, cache-status tagging, header merge).

use vstd::prelude::*;

use crate::HitOrMiss;
use crate::XCACHE;
use crate::XCACHELOOKUP;
use crate::headers::Headers;
use crate::text::contains_seq;
use crate::text::dec_digits;
use crate::text::digits_val;
use crate::text::is_digit;
use crate::text::lower;
use crate::text::ascii_lowercase;
use crate::text::str_contains;
use crate::text::usize_to_string;

verus! {

/// An HTTP version.
#[derive(Debug, Copy, Clone, PartialEq, Eq, Structural)]
#[non_exhaustive]
pub enum HttpVersion {
    /// HTTP Version 0.9
    Http09,
    /// HTTP Version 1.0
    Http10,
    /// HTTP Version 1.1
    Http11,
    /// HTTP Version 2.0
    H2,
    /// HTTP Version 3.0
    H3,
}

impl HttpVersion {
    /// The conventional rendering of this version.
    pub open spec fn spec_str(self) -> Seq<char> {
        match self {
            HttpVersion::Http09 => "HTTP/0.9"@,
            HttpVersion::Http10 => "HTTP/1.0"@,
            HttpVersion::Http11 => "HTTP/1.1"@,
            HttpVersion::H2 => "HTTP/2.0"@,
            HttpVersion::H3 => "HTTP/3.0"@,
        }
    }

    /// Renders this version conventionally, `"HTTP/1.1"` for example.
    pub fn to_str(&self) -> (r: &'static str)
        ensures
            r@ == self.spec_str(),
    {
        match self {
            HttpVersion::Http09 => "HTTP/0.9",
            HttpVersion::Http10 => "HTTP/1.0",
            HttpVersion::Http11 => "HTTP/1.1",
            HttpVersion::H2 => "HTTP/2.0",
            HttpVersion::H3 => "HTTP/3.0",
        }
    }
}

/// The mathematical value of an [`HttpUrl`].
pub struct UrlView {
    /// The full serialized form of the URL.
    pub full: Seq<char>,
    /// The host component, if the URL has one.
    pub host: Option<Seq<char>>,
}

/// A URL, modelled as the engine reads it: its full serialized form, and
/// its host component. Adapters convert their own URL type into this one.
#[derive(Debug)]
pub struct HttpUrl {
    /// The full serialized form of the URL.
    pub full: String,
    /// The host component, if the URL has one.
    pub host: Option<String>,
}

impl View for HttpUrl {
    type V = UrlView;

    open spec fn view(&self) -> UrlView {
        UrlView {
            full: self.full@,
            host: match self.host {
                Some(h) => Some(h@),
                None => None,
            },
        }
    }
}

impl Clone for HttpUrl {
    /// Clones the URL; the copy carries the same value.
    fn clone(&self) -> (r: Self)
        ensures
            r@ == self@,
    {
        HttpUrl {
            full: self.full.clone(),
            host: match &self.host {
                Some(h) => Some(h.clone()),
                None => None,
            },
        }
    }
}

/// An HTTP response body, fully materialized. Adapters materialize a
/// streaming body before handing it to the engine.
#[derive(Debug, Clone)]
pub struct Body {
    bytes: Vec<u8>,
}

impl View for Body {
    type V = Seq<u8>;

    closed spec fn view(&self) -> Seq<u8> {
        self.bytes@
    }
}

impl Body {
    /// The body bytes.
    pub fn as_bytes(&self) -> (r: Option<&[u8]>)
        ensures
            match r {
                Some(b) => b@ == self@,
                None => false,
            },
    {
        Some(self.bytes.as_slice())
    }

    /// All bytes of the body.
    pub fn bytes(self) -> (r: Vec<u8>)
        ensures
            r@ == self@,
    {
        self.bytes
    }
}

impl From<Vec<u8>> for Body {
    /// Wraps a byte buffer as a body.
    fn from(value: Vec<u8>) -> (r: Self)
        ensures
            r@ == value@,
    {
        Body { bytes: value }
    }
}

impl vstd::std_specs::convert::FromSpecImpl<Vec<u8>> for Body {
    closed spec fn obeys_from_spec() -> bool {
        true
    }

    closed spec fn from_spec(value: Vec<u8>) -> Self {
        Body { bytes: value }
    }
}

/// The mathematical value of a [`Parts`].
pub struct PartsView {
    /// The header mapping.
    pub headers: Map<Seq<char>, Seq<char>>,
    /// The status code.
    pub status: u16,
    /// The response URL.
    pub url: UrlView,
    /// The HTTP version.
    pub version: HttpVersion,
}

/// HTTP response parts: status, version, response URL and headers.
#[derive(Debug, Clone)]
pub struct Parts {
    /// HTTP response headers.
    pub headers: Headers,
    /// HTTP response status code.
    pub status: u16,
    /// HTTP response url.
    pub url: HttpUrl,
    /// HTTP response version.
    pub version: HttpVersion,
}

impl View for Parts {
    type V = PartsView;

    open spec fn view(&self) -> PartsView {
        PartsView {
            headers: self.headers@,
            status: self.status,
            url: self.url@,
            version: self.version,
        }
    }
}

impl Parts {
    /// True when the header container is well formed.
    pub open spec fn wf(&self) -> bool {
        self.headers.wf()
    }
}

/// The mathematical value of an [`HttpResponse`].
pub struct ResponseView {
    /// The head of the response.
    pub parts: PartsView,
    /// The body bytes.
    pub body: Seq<u8>,
}

/// A basic generic type that represents an HTTP response.
#[derive(Debug, Clone)]
pub struct HttpResponse {
    /// HTTP response body.
    pub body: Body,
    /// HTTP response parts.
    pub parts: Parts,
}

impl View for HttpResponse {
    type V = ResponseView;

    open spec fn view(&self) -> ResponseView {
        ResponseView { parts: self.parts@, body: self.body@ }
    }
}

/// The first three characters of `v`, or all of it when it is shorter.
pub open spec fn take3(v: Seq<char>) -> Seq<char> {
    if v.len() <= 3 {
        v
    } else {
        v.subrange(0, 3)
    }
}

/// The warning code held in the first up-to-three characters of `v`, when
/// they are all decimal digits and there is at least one of them.
pub open spec fn parsed_warning_code(v: Seq<char>) -> Option<nat> {
    let p = take3(v);
    if p.len() > 0 && (forall|i: int| 0 <= i < p.len() ==> is_digit(p[i])) {
        Some(digits_val(p))
    } else {
        None
    }
}

/// The serialized warning header value:
/// `{code} {host} "{message}" "{date}"`.
pub open spec fn warning_value(
    code: nat,
    host: Seq<char>,
    message: Seq<char>,
    date: Seq<char>,
) -> Seq<char> {
    dec_digits(code) + " "@ + host + " \""@ + message + "\" \""@ + date + "\""@
}

/// The leading digits of a serialized warning value read back as the code
/// it was rendered from.
pub proof fn lemma_warning_value_code(
    code: nat,
    host: Seq<char>,
    message: Seq<char>,
    date: Seq<char>,
)
    requires
        100 <= code < 1000,
    ensures
        parsed_warning_code(warning_value(code, host, message, date)) == Some(code),
{
    crate::text::lemma_dec_digits(code);
    reveal_strlit(" ");
    let w = warning_value(code, host, message, date);
    let d = dec_digits(code);
    assert(d.len() == 3);
    assert(w.len() > 3);
    assert(take3(w) =~= d);
    assert(digits_val(take3(w)) == code);
}

impl HttpResponse {
    /// True when the header container is well formed.
    pub open spec fn wf(&self) -> bool {
        self.parts.wf()
    }

    /// The warning code of this response, by the view: the leading decimal
    /// digits of the `warning` header.
    pub open spec fn spec_warning_code(&self) -> Option<nat> {
        if self@.parts.headers.contains_key("warning"@) {
            parsed_warning_code(self@.parts.headers["warning"@])
        } else {
            None
        }
    }

    /// True when the `cache-control` header value, lowercased, contains
    /// the `must-revalidate` directive.
    pub open spec fn spec_must_revalidate(&self) -> bool {
        self@.parts.headers.contains_key("cache-control"@) && contains_seq(
            lower(self@.parts.headers["cache-control"@]),
            "must-revalidate"@,
        )
    }

    /// Consumes the response returning the head and body parts.
    pub fn into_parts(self) -> (r: (Parts, Body))
        ensures
            r.0 == self.parts,
            r.1 == self.body,
    {
        (self.parts, self.body)
    }

    /// Creates a new response with the given head and body.
    pub fn from_parts(parts: Parts, body: Body) -> (r: Self)
        ensures
            r.parts == parts,
            r.body == body,
    {
        Self { body, parts }
    }

    /// Returns the status code of the warning header if present.
    pub fn warning_code(&self) -> (r: Option<usize>)
        requires
            self.wf(),
        ensures
            match r {
                Some(c) => self.spec_warning_code() == Some(c as nat),
                None => self.spec_warning_code() is None,
            },
    {
        let hdr = match self.parts.headers.get("warning") {
            Some(h) => h,
            None => {
                return None;
            },
        };
        let s = hdr.as_str();
        let n = s.unicode_len();
        let take = if n <= 3 {
            n
        } else {
            3
        };
        let ghost p = take3(s@);
        proof {
            assert(p.len() == take);
            assert(forall|j: int| 0 <= j < p.len() ==> p[j] == s@[j]);
        }
        if take == 0 {
            return None;
        }
        let mut val: usize = 0;
        let mut i: usize = 0;
        while i < take
            invariant
                self@.parts.headers.contains_key("warning"@),
                s@ == self@.parts.headers["warning"@],
                n == s@.len(),
                take == p.len(),
                1 <= take <= 3,
                p == take3(s@),
                i <= take,
                forall|j: int| 0 <= j < i ==> is_digit(p[j]),
                val == digits_val(p.subrange(0, i as int)),
            decreases take - i,
        {
            let c = s.get_char(i);
            proof {
                assert(p[i as int] == s@[i as int]);
            }
            let u = c as u32;
            if !(48 <= u && u <= 57) {
                proof {
                    assert(!is_digit(p[i as int]));
                }
                return None;
            }
            proof {
                assert(forall|j: int|
                    0 <= j < i ==> is_digit(#[trigger] p.subrange(0, i as int)[j]));
                crate::text::lemma_digits_val_small(p.subrange(0, i as int));
                assert(p.subrange(0, i + 1).drop_last() =~= p.subrange(0, i as int));
            }
            val = val * 10 + ((u - 48) as usize);
            i = i + 1;
        }
        proof {
            assert(p.subrange(0, take as int) =~= p);
        }
        Some(val)
    }

    /// Adds a warning header to a response:
    /// `{code} {host} "{message}" "{http-date-now}"`, with the host taken
    /// from `url` and the date read from the clock.
    pub fn add_warning(&mut self, url: &HttpUrl, code: usize, message: &str)
        requires
            old(self).wf(),
            url@.host is Some,
        ensures
            final(self).wf(),
            exists|date: Seq<char>|
                final(self)@ == (ResponseView {
                    parts: PartsView {
                        headers: old(self)@.parts.headers.insert(
                            "warning"@,
                            #[trigger] warning_value(code as nat, url@.host.unwrap(), message@, date),
                        ),
                        ..old(self)@.parts
                    },
                    ..old(self)@
                }),
            100 <= code < 1000 ==> final(self).spec_warning_code() == Some(code as nat),
    {
        let host = match &url.host {
            Some(h) => h,
            None => vstd::pervasive::unreached(),
        };
        let date = crate::boundary::http_date_now();
        let mut v = usize_to_string(code);
        v.append(" ");
        v.append(host.as_str());
        v.append(" \"");
        v.append(message);
        v.append("\" \"");
        v.append(date.as_str());
        v.append("\"");
        proof {
            assert(v@ =~= warning_value(code as nat, url@.host.unwrap(), message@, date@));
        }
        self.parts.headers.insert("warning".to_owned(), v);
        proof {
            let got = (ResponseView {
                parts: PartsView {
                    headers: old(self)@.parts.headers.insert(
                        "warning"@,
                        warning_value(code as nat, url@.host.unwrap(), message@, date@),
                    ),
                    ..old(self)@.parts
                },
                ..old(self)@
            });
            assert(final(self)@ == got);
            if 100 <= code && code < 1000 {
                lemma_warning_value_code(code as nat, url@.host.unwrap(), message@, date@);
            }
        }
    }

    /// Removes a warning header from a response.
    pub fn remove_warning(&mut self)
        requires
            old(self).wf(),
        ensures
            final(self).wf(),
            final(self)@ == (ResponseView {
                parts: PartsView {
                    headers: old(self)@.parts.headers.remove("warning"@),
                    ..old(self)@.parts
                },
                ..old(self)@
            }),
    {
        self.parts.headers.remove("warning");
    }

    /// Merges foreign header parts into the response header map, inserting
    /// over existing keys.
    pub fn update_headers(&mut self, headers: &Vec<(String, String)>)
        requires
            old(self).wf(),
        ensures
            final(self).wf(),
            final(self)@ == (ResponseView {
                parts: PartsView {
                    headers: crate::headers::merged(old(self)@.parts.headers, headers@),
                    ..old(self)@.parts
                },
                ..old(self)@
            }),
    {
        let n = headers.len();
        let mut i: usize = 0;
        while i < n
            invariant
                self.wf(),
                n == headers@.len(),
                i <= n,
                self.body == old(self).body,
                self.parts.status == old(self).parts.status,
                self.parts.url == old(self).parts.url,
                self.parts.version == old(self).parts.version,
                self.parts.headers@ == crate::headers::merged(
                    old(self)@.parts.headers,
                    headers@.subrange(0, i as int),
                ),
            decreases n - i,
        {
            let (k, v) = (&headers[i].0, &headers[i].1);
            self.parts.headers.insert(k.clone(), v.clone());
            proof {
                assert(headers@.subrange(0, i + 1).drop_last() =~= headers@.subrange(0, i as int));
            }
            i = i + 1;
        }
        proof {
            assert(headers@.subrange(0, n as int) =~= headers@);
        }
    }

    /// Checks if the `cache-control` header contains the `must-revalidate`
    /// directive.
    pub fn must_revalidate(&self) -> (r: bool)
        requires
            self.wf(),
        ensures
            r == self.spec_must_revalidate(),
    {
        match self.parts.headers.get("cache-control") {
            Some(val) => {
                let lowered = ascii_lowercase(val.as_str());
                str_contains(lowered.as_str(), "must-revalidate")
            },
            None => false,
        }
    }

    /// Adds the custom `x-cache` header to the response.
    pub fn cache_status(&mut self, hit_or_miss: HitOrMiss)
        requires
            old(self).wf(),
        ensures
            final(self).wf(),
            final(self)@ == (ResponseView {
                parts: PartsView {
                    headers: old(self)@.parts.headers.insert(
                        "x-cache"@,
                        hit_or_miss.spec_str(),
                    ),
                    ..old(self)@.parts
                },
                ..old(self)@
            }),
    {
        self.parts.headers.insert(XCACHE.to_owned(), hit_or_miss.to_str().to_owned());
    }

    /// Adds the custom `x-cache-lookup` header to the response.
    pub fn cache_lookup_status(&mut self, hit_or_miss: HitOrMiss)
        requires
            old(self).wf(),
        ensures
            final(self).wf(),
            final(self)@ == (ResponseView {
                parts: PartsView {
                    headers: old(self)@.parts.headers.insert(
                        "x-cache-lookup"@,
                        hit_or_miss.spec_str(),
                    ),
                    ..old(self)@.parts
                },
                ..old(self)@
            }),
    {
        self.parts.headers.insert(XCACHELOOKUP.to_owned(), hit_or_miss.to_str().to_owned());
    }
}

} // verus!
