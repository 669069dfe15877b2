//! Validation of a request description into a request ready to send. No I/O
//! happens here.

use vstd::prelude::*;
use vstd::string::StrSliceExecFns;

verus! {

/// The HTTP methods this engine sends.
#[derive(Clone, Copy, Debug, PartialEq, Eq, Structural)]
pub enum Method {
    Get,
    Post,
    Put,
    Delete,
    Head,
    Options,
    Connect,
    Patch,
    Trace,
}

#[derive(Clone, Copy, Debug, PartialEq, Eq, Structural)]
pub enum BuildError {
    InvalidMethod,
    InvalidUrl,
    InvalidHeader,
}

/// A request as the caller describes it.
#[derive(Debug)]
pub struct RequestConfig {
    /// Chosen by the caller, unique among requests in flight; the cancellation key.
    pub id: u64,
    pub method: String,
    pub url: String,
    /// In order; a name may repeat.
    pub headers: Vec<(String, String)>,
    pub body: Option<Vec<u8>>,
    pub timeout_ms: Option<u64>,
    pub proxy: Option<String>,
}

/// A validated request: its method is known, its URL absolute with a host,
/// and its headers legal.
#[derive(Debug)]
pub struct ExecutableRequest {
    pub id: u64,
    pub method: Method,
    /// The URL in its parsed, normalised form.
    pub url: String,
    pub headers: Vec<(String, String)>,
    pub body: Option<Vec<u8>>,
    pub timeout_ms: Option<u64>,
    pub proxy: Option<String>,
}

/// The token that names method `m` on the wire.
pub open spec fn method_name(m: Method) -> Seq<char> {
    match m {
        Method::Get => "GET"@,
        Method::Post => "POST"@,
        Method::Put => "PUT"@,
        Method::Delete => "DELETE"@,
        Method::Head => "HEAD"@,
        Method::Options => "OPTIONS"@,
        Method::Connect => "CONNECT"@,
        Method::Patch => "PATCH"@,
        Method::Trace => "TRACE"@,
    }
}

/// The method whose token is exactly `s`, if any.
pub open spec fn method_of(s: Seq<char>) -> Option<Method> {
    if s == "GET"@ {
        Some(Method::Get)
    } else if s == "POST"@ {
        Some(Method::Post)
    } else if s == "PUT"@ {
        Some(Method::Put)
    } else if s == "DELETE"@ {
        Some(Method::Delete)
    } else if s == "HEAD"@ {
        Some(Method::Head)
    } else if s == "OPTIONS"@ {
        Some(Method::Options)
    } else if s == "CONNECT"@ {
        Some(Method::Connect)
    } else if s == "PATCH"@ {
        Some(Method::Patch)
    } else if s == "TRACE"@ {
        Some(Method::Trace)
    } else {
        None
    }
}

/// A token character of RFC 9110, the characters a header name may hold.
pub open spec fn is_token_char(c: char) -> bool {
    ||| 'a' <= c && c <= 'z'
    ||| 'A' <= c && c <= 'Z'
    ||| '0' <= c && c <= '9'
    ||| c == '!' || c == '#' || c == '$' || c == '%' || c == '&' || c == '\''
    ||| c == '*' || c == '+' || c == '-' || c == '.' || c == '^' || c == '_'
    ||| c == '`' || c == '|' || c == '~'
}

pub open spec fn valid_header_name(s: Seq<char>) -> bool {
    &&& 1 <= s.len() <= 65535
    &&& forall|i: int| 0 <= i < s.len() ==> is_token_char(#[trigger] s[i])
}

/// A header value holds no control character but horizontal tab.
pub open spec fn valid_header_value(s: Seq<char>) -> bool {
    forall|i: int|
        0 <= i < s.len() ==> (#[trigger] s[i] == '\t' || (s[i] as u32 >= 32 && s[i] as u32 != 127))
}

pub open spec fn valid_header(h: (String, String)) -> bool {
    valid_header_name(h.0@) && valid_header_value(h.1@)
}

pub open spec fn headers_valid(hs: Seq<(String, String)>) -> bool {
    forall|i: int| 0 <= i < hs.len() ==> valid_header(#[trigger] hs[i])
}

/// What url's parser makes of `s`: its serialisation and whether it has a
/// host; `None` where `s` is not an absolute URL.
pub uninterp spec fn parsed_url(s: Seq<char>) -> Option<(Seq<char>, bool)>;

/// An absolute URL with a host.
pub open spec fn url_accepted(s: Seq<char>) -> bool {
    parsed_url(s) is Some && parsed_url(s)->Some_0.1
}

/// The first rule that `c` breaks, in the order method, URL, headers.
pub open spec fn build_error(c: RequestConfig) -> Option<BuildError> {
    if method_of(c.method@) is None {
        Some(BuildError::InvalidMethod)
    } else if !url_accepted(c.url@) {
        Some(BuildError::InvalidUrl)
    } else if !headers_valid(c.headers@) {
        Some(BuildError::InvalidHeader)
    } else {
        None
    }
}

/// Relies on url::Url::parse, as reqwest re-exports it, with Url::as_str and
/// Url::has_host: the result depends on the text alone.
#[verifier::external_body]
fn parse_url(s: &str) -> (r: Option<(String, bool)>)
    ensures
        match parsed_url(s@) {
            Some(p) => r is Some && r->Some_0.0@ == p.0 && r->Some_0.1 == p.1,
            None => r is None,
        },
{
    match reqwest::Url::parse(s) {
        Ok(u) => Some((u.as_str().to_string(), u.has_host())),
        Err(_) => None,
    }
}

/// Relies on http's HeaderName::from_str (reqwest::header): it accepts 1 to
/// 65535 token characters.
#[verifier::external_body]
fn header_name_ok(s: &str) -> (r: bool)
    ensures
        r == valid_header_name(s@),
{
    <reqwest::header::HeaderName as std::str::FromStr>::from_str(s).is_ok()
}

/// Relies on http's HeaderValue::from_str (reqwest::header): it refuses bytes
/// below 32 but tab, and 127.
#[verifier::external_body]
fn header_value_ok(s: &str) -> (r: bool)
    ensures
        r == valid_header_value(s@),
{
    reqwest::header::HeaderValue::from_str(s).is_ok()
}

/// Exact equality of two strings.
fn same_text(a: &str, b: &str) -> (r: bool)
    ensures
        r == (a@ == b@),
{
    let n = a.unicode_len();
    if n != b.unicode_len() {
        return false;
    }
    let mut i: usize = 0;
    while i < n
        invariant
            n == a@.len(),
            n == b@.len(),
            i <= n,
            forall|j: int| 0 <= j < i ==> a@[j] == b@[j],
        decreases n - i,
    {
        if a.get_char(i) != b.get_char(i) {
            return false;
        }
        i = i + 1;
    }
    assert(a@ =~= b@);
    true
}

impl Method {
    /// Parses a method token; only the standard methods are known, in upper case.
    pub fn parse(s: &str) -> (r: Option<Method>)
        ensures
            r == method_of(s@),
    {
        if same_text(s, "GET") {
            Some(Method::Get)
        } else if same_text(s, "POST") {
            Some(Method::Post)
        } else if same_text(s, "PUT") {
            Some(Method::Put)
        } else if same_text(s, "DELETE") {
            Some(Method::Delete)
        } else if same_text(s, "HEAD") {
            Some(Method::Head)
        } else if same_text(s, "OPTIONS") {
            Some(Method::Options)
        } else if same_text(s, "CONNECT") {
            Some(Method::Connect)
        } else if same_text(s, "PATCH") {
            Some(Method::Patch)
        } else if same_text(s, "TRACE") {
            Some(Method::Trace)
        } else {
            None
        }
    }

    /// The token that names this method on the wire.
    pub fn name(&self) -> (r: &'static str)
        ensures
            r@ == method_name(*self),
    {
        match self {
            Method::Get => "GET",
            Method::Post => "POST",
            Method::Put => "PUT",
            Method::Delete => "DELETE",
            Method::Head => "HEAD",
            Method::Options => "OPTIONS",
            Method::Connect => "CONNECT",
            Method::Patch => "PATCH",
            Method::Trace => "TRACE",
        }
    }
}

/// Whether every header's name and value are legal.
pub fn check_headers(headers: &Vec<(String, String)>) -> (r: bool)
    ensures
        r == headers_valid(headers@),
{
    let n = headers.len();
    let mut i: usize = 0;
    while i < n
        invariant
            n == headers@.len(),
            i <= n,
            forall|j: int| 0 <= j < i ==> valid_header(#[trigger] headers@[j]),
        decreases n - i,
    {
        if !header_name_ok(headers[i].0.as_str()) || !header_value_ok(headers[i].1.as_str()) {
            assert(!valid_header(headers@[i as int]));
            return false;
        }
        i = i + 1;
    }
    true
}

impl RequestConfig {
    pub fn new(
        id: u64,
        method: String,
        url: String,
        headers: Vec<(String, String)>,
        body: Option<Vec<u8>>,
        timeout_ms: Option<u64>,
        proxy: Option<String>,
    ) -> (r: RequestConfig)
        ensures
            r.id == id,
            r.method == method,
            r.url == url,
            r.headers == headers,
            r.body == body,
            r.timeout_ms == timeout_ms,
            r.proxy == proxy,
    {
        RequestConfig { id, method, url, headers, body, timeout_ms, proxy }
    }
}

/// Validates a request description. The method must be one of the standard
/// methods, the URL absolute with a host, and each header legal; the first
/// rule broken, in that order, is the error. The headers, body, timeout and
/// proxy are carried over unchanged.
pub fn build_request(config: RequestConfig) -> (r: Result<ExecutableRequest, BuildError>)
    ensures
        match build_error(config) {
            Some(e) => r == Err::<ExecutableRequest, BuildError>(e),
            None => {
                &&& r is Ok
                &&& r->Ok_0.id == config.id
                &&& Some(r->Ok_0.method) == method_of(config.method@)
                &&& r->Ok_0.url@ == parsed_url(config.url@)->Some_0.0
                &&& r->Ok_0.headers == config.headers
                &&& r->Ok_0.body == config.body
                &&& r->Ok_0.timeout_ms == config.timeout_ms
                &&& r->Ok_0.proxy == config.proxy
            },
        },
{
    let method = match Method::parse(config.method.as_str()) {
        Some(m) => m,
        None => {
            return Err(BuildError::InvalidMethod);
        },
    };
    let url = match parse_url(config.url.as_str()) {
        Some((text, true)) => text,
        _ => {
            return Err(BuildError::InvalidUrl);
        },
    };
    if !check_headers(&config.headers) {
        return Err(BuildError::InvalidHeader);
    }
    let RequestConfig { id, method: _, url: _, headers, body, timeout_ms, proxy } = config;
    Ok(ExecutableRequest { id, method, url, headers, body, timeout_ms, proxy })
}

} // verus!
