use vstd::prelude::*;

use crate::error::RequestError;
use crate::headers::pairs_view;
use crate::request::{bearer_value, planned, token_value, AuthMode, Method, RequestSpec};

verus! {

/// Entry points that prepare the common kinds of request.
pub struct Rest;

impl Rest {
    /// A GET with no authentication.
    pub fn get(url: &str) -> (r: Result<RequestSpec, RequestError>)
        ensures
            planned(r, Method::Get, url@, None, seq![], None, None),
    {
        let no_headers: Vec<(String, String)> = Vec::new();
        let r = RequestSpec::get(url, &AuthMode::NoAuth, &no_headers, None);
        proof {
            assert(pairs_view(no_headers@) =~= seq![]);
        }
        r
    }

    /// A GET that sends `Authorization: token <token>`.
    pub fn get_with_auth(url: &str, token: &str) -> (r: Result<RequestSpec, RequestError>)
        ensures
            planned(r, Method::Get, url@, Some(token_value(token@)), seq![], None, None),
    {
        let no_headers: Vec<(String, String)> = Vec::new();
        let r = RequestSpec::get(url, &AuthMode::TokenHeader(String::from_str(token)), &no_headers, None);
        proof {
            assert(pairs_view(no_headers@) =~= seq![]);
        }
        r
    }

    /// A GET with the caller's headers and a limit, in milliseconds, on the whole exchange.
    pub fn get_with_custom_headers_and_timeout(
        url: &str,
        custom_headers: Vec<(String, String)>,
        timeout_ms: u64,
    ) -> (r: Result<RequestSpec, RequestError>)
        ensures
            planned(r, Method::Get, url@, None, pairs_view(custom_headers@), None, Some(timeout_ms)),
    {
        RequestSpec::get(url, &AuthMode::NoAuth, &custom_headers, Some(timeout_ms))
    }

    /// A POST of the JSON text `body` with no authentication.
    pub fn post(url: &str, body: String) -> (r: Result<RequestSpec, RequestError>)
        ensures
            planned(r, Method::Post, url@, None, seq![], Some(body), None),
    {
        let no_headers: Vec<(String, String)> = Vec::new();
        let r = RequestSpec::post(url, &AuthMode::NoAuth, &no_headers, body, None);
        proof {
            assert(pairs_view(no_headers@) =~= seq![]);
        }
        r
    }

    /// A POST of the JSON text `body` that sends `Authorization: token <token>`.
    pub fn post_with_auth(url: &str, token: &str, body: String) -> (r: Result<RequestSpec, RequestError>)
        ensures
            planned(r, Method::Post, url@, Some(token_value(token@)), seq![], Some(body), None),
    {
        let no_headers: Vec<(String, String)> = Vec::new();
        let r = RequestSpec::post(url, &AuthMode::TokenHeader(String::from_str(token)), &no_headers, body, None);
        proof {
            assert(pairs_view(no_headers@) =~= seq![]);
        }
        r
    }

    /// A POST of the JSON text `body` that sends `Authorization: Bearer <token>`.
    pub fn post_with_bearer(url: &str, token: &str, body: String) -> (r: Result<RequestSpec, RequestError>)
        ensures
            planned(r, Method::Post, url@, Some(bearer_value(token@)), seq![], Some(body), None),
    {
        let no_headers: Vec<(String, String)> = Vec::new();
        let r = RequestSpec::post(url, &AuthMode::BearerHeader(String::from_str(token)), &no_headers, body, None);
        proof {
            assert(pairs_view(no_headers@) =~= seq![]);
        }
        r
    }

    /// A POST of the JSON text `body` with the caller's headers added.
    pub fn post_with_headers(
        url: &str,
        additional_headers: Vec<(String, String)>,
        body: String,
    ) -> (r: Result<RequestSpec, RequestError>)
        ensures
            planned(r, Method::Post, url@, None, pairs_view(additional_headers@), Some(body), None),
    {
        RequestSpec::post(url, &AuthMode::NoAuth, &additional_headers, body, None)
    }
}

} // verus!
