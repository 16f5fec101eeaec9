use vstd::prelude::*;

use crate::error::{InvalidPart, RequestError};
use crate::headers::{all_valid, merge_headers, pairs_view, valid_header_value, merged, HeaderList};

verus! {

/// The HTTP method of a request.
#[derive(Debug, Clone, Copy, PartialEq, Eq, Structural)]
pub enum Method {
    Get,
    Post,
}

/// How a request authenticates itself.
#[derive(Debug, Clone, PartialEq, Eq)]
pub enum AuthMode {
    NoAuth,
    /// Sent as `Authorization: token <value>`.
    TokenHeader(String),
    /// Sent as `Authorization: Bearer <value>`.
    BearerHeader(String),
}

/// The value of the `User-Agent` header sent with every request.
pub const USER_AGENT: &'static str = "cnctd_rest";

pub open spec fn token_value(t: Seq<char>) -> Seq<char> {
    "token "@ + t
}

pub open spec fn bearer_value(t: Seq<char>) -> Seq<char> {
    "Bearer "@ + t
}

/// The `Authorization` value that `auth` sends, if any.
pub open spec fn auth_value(auth: AuthMode) -> Option<Seq<char>> {
    match auth {
        AuthMode::NoAuth => None,
        AuthMode::TokenHeader(t) => Some(token_value(t@)),
        AuthMode::BearerHeader(t) => Some(bearer_value(t@)),
    }
}

/// The headers a request carries before the caller's own are added.
pub open spec fn default_headers(auth: Option<Seq<char>>, json_body: bool) -> Map<Seq<char>, Seq<char>> {
    let ua = map!["user-agent"@ => USER_AGENT@];
    let with_type = if json_body {
        ua.insert("content-type"@, "application/json"@)
    } else {
        ua
    };
    match auth {
        Some(v) => with_type.insert("authorization"@, v),
        None => with_type,
    }
}

pub open spec fn auth_ok(auth: Option<Seq<char>>) -> bool {
    match auth {
        Some(v) => valid_header_value(v),
        None => true,
    }
}

/// Whether the `url` text parses as an absolute URL.
pub uninterp spec fn parses_as_url(url: Seq<char>) -> bool;

/// Relies on `url::Url::parse` (re-exported by reqwest as `reqwest::Url`), which
/// accepts absolute URLs only; the answer depends on the text alone.
#[verifier::external_body]
fn url_is_valid(url: &str) -> (r: bool)
    ensures
        r == parses_as_url(url@),
{
    reqwest::Url::parse(url).is_ok()
}

/// One request, ready to be sent.
#[derive(Debug, Clone)]
pub struct RequestSpec {
    pub method: Method,
    pub url: String,
    pub headers: HeaderList,
    /// JSON text, present only for `Post`.
    pub body: Option<String>,
    /// Limit on the whole exchange, in milliseconds; `None` leaves it to the transport.
    pub timeout_ms: Option<u64>,
}

/// `r` is the outcome of preparing a request with these parts: the URL is
/// checked first, then every header; a request that passes both carries exactly
/// the default headers merged with the caller's.
pub open spec fn planned(
    r: Result<RequestSpec, RequestError>,
    method: Method,
    url: Seq<char>,
    auth: Option<Seq<char>>,
    extra: Seq<(Seq<char>, Seq<char>)>,
    body: Option<String>,
    timeout_ms: Option<u64>,
) -> bool {
    if !parses_as_url(url) {
        r == Err::<RequestSpec, RequestError>(RequestError::InvalidRequest(InvalidPart::Url))
    } else if !(auth_ok(auth) && all_valid(extra)) {
        r == Err::<RequestSpec, RequestError>(RequestError::InvalidRequest(InvalidPart::Header))
    } else {
        match r {
            Ok(q) => {
                &&& q.method == method
                &&& q.url@ == url
                &&& q.headers.wf()
                &&& q.headers@ == merged(default_headers(auth, body is Some), extra)
                &&& q.body == body
                &&& q.timeout_ms == timeout_ms
            },
            Err(_) => false,
        }
    }
}

/// The `Authorization` value of `auth`, built as text.
pub fn authorization_value(auth: &AuthMode) -> (r: Option<String>)
    ensures
        r matches Some(v) ==> auth_value(*auth) == Some(v@),
        r is None ==> auth_value(*auth) is None,
{
    match auth {
        AuthMode::NoAuth => None,
        AuthMode::TokenHeader(t) => Some(String::from_str("token ").concat(t.as_str())),
        AuthMode::BearerHeader(t) => Some(String::from_str("Bearer ").concat(t.as_str())),
    }
}

impl RequestSpec {
    fn build(
        method: Method,
        url: &str,
        auth: &AuthMode,
        extra: &Vec<(String, String)>,
        body: Option<String>,
        timeout_ms: Option<u64>,
    ) -> (r: Result<RequestSpec, RequestError>)
        ensures
            planned(r, method, url@, auth_value(*auth), pairs_view(extra@), body, timeout_ms),
    {
        if !url_is_valid(url) {
            return Err(RequestError::InvalidRequest(InvalidPart::Url));
        }
        let mut headers = HeaderList::new();
        headers.insert(String::from_str("user-agent"), String::from_str(USER_AGENT));
        if body.is_some() {
            headers.insert(String::from_str("content-type"), String::from_str("application/json"));
        }
        match authorization_value(auth) {
            Some(v) => {
                if !crate::headers::header_value_is_valid(v.as_str()) {
                    return Err(RequestError::InvalidRequest(InvalidPart::Header));
                }
                headers.insert(String::from_str("authorization"), v);
            },
            None => {},
        }
        if !merge_headers(&mut headers, extra) {
            return Err(RequestError::InvalidRequest(InvalidPart::Header));
        }
        Ok(RequestSpec { method, url: String::from_str(url), headers, body, timeout_ms })
    }

    /// Prepares a GET request with the given authentication, caller headers and timeout.
    pub fn get(url: &str, auth: &AuthMode, extra: &Vec<(String, String)>, timeout_ms: Option<u64>) -> (r: Result<RequestSpec, RequestError>)
        ensures
            planned(r, Method::Get, url@, auth_value(*auth), pairs_view(extra@), None, timeout_ms),
    {
        RequestSpec::build(Method::Get, url, auth, extra, None, timeout_ms)
    }

    /// Prepares a POST request whose body is the JSON text `body`.
    pub fn post(url: &str, auth: &AuthMode, extra: &Vec<(String, String)>, body: String, timeout_ms: Option<u64>) -> (r: Result<RequestSpec, RequestError>)
        ensures
            planned(r, Method::Post, url@, auth_value(*auth), pairs_view(extra@), Some(body), timeout_ms),
    {
        RequestSpec::build(Method::Post, url, auth, extra, Some(body), timeout_ms)
    }
}

/// A GET prepared with a well-formed URL, no authentication and no caller
/// headers carries exactly one header, `User-Agent` with its fixed value; in
/// particular no `Authorization` header.
pub proof fn unauthenticated_get_sends_only_user_agent(
    r: Result<RequestSpec, RequestError>,
    url: Seq<char>,
    timeout_ms: Option<u64>,
)
    requires
        parses_as_url(url),
        planned(r, Method::Get, url, None, seq![], None, timeout_ms),
    ensures
        r is Ok,
        r->Ok_0.headers@ == map!["user-agent"@ => USER_AGENT@],
        !r->Ok_0.headers@.contains_key("authorization"@),
{
    reveal_strlit("user-agent");
    reveal_strlit("authorization");
    assert("user-agent"@[0] != "authorization"@[0]);
}

/// With no caller headers, a request authenticated by `auth` carries the
/// `Authorization` value `token <t>` or `Bearer <t>`, with `t` as given, and none
/// without authentication.
pub proof fn authorization_header_format(
    r: Result<RequestSpec, RequestError>,
    method: Method,
    url: Seq<char>,
    auth: AuthMode,
    body: Option<String>,
    timeout_ms: Option<u64>,
)
    requires
        planned(r, method, url, auth_value(auth), seq![], body, timeout_ms),
        r is Ok,
    ensures
        auth matches AuthMode::TokenHeader(t) ==> r->Ok_0.headers@["authorization"@] == "token "@ + t@,
        auth matches AuthMode::BearerHeader(t) ==> r->Ok_0.headers@["authorization"@] == "Bearer "@ + t@,
        auth is NoAuth <==> !r->Ok_0.headers@.contains_key("authorization"@),
{
    reveal_strlit("user-agent");
    reveal_strlit("authorization");
    reveal_strlit("content-type");
    assert("user-agent"@[0] != "authorization"@[0]);
    assert("content-type"@[0] != "authorization"@[0]);
}

} // verus!
