use cnctd_rest::error::{InvalidPart, RequestError, TransportKind};
use cnctd_rest::request::{AuthMode, Method, RequestSpec, USER_AGENT};
use cnctd_rest::response::{check_status, decode_outcome, transport_failure};
use cnctd_rest::rest::Rest;

fn header<'a>(spec: &'a RequestSpec, name: &str) -> Option<&'a str> {
    spec.headers.get(name).map(|v| v.as_str())
}

fn pairs(items: &[(&str, &str)]) -> Vec<(String, String)> {
    items.iter().map(|(k, v)| (k.to_string(), v.to_string())).collect()
}

fn decode_json(body: &str) -> Result<serde_json::Value, String> {
    serde_json::from_str::<serde_json::Value>(body).map_err(|e| e.to_string())
}

#[test]
fn plain_get_sends_only_user_agent() {
    let spec = Rest::get("https://api.example.com/items").unwrap();
    assert_eq!(spec.method, Method::Get);
    assert_eq!(spec.url, "https://api.example.com/items");
    assert_eq!(spec.headers.len(), 1);
    assert_eq!(header(&spec, "user-agent"), Some("cnctd_rest"));
    assert_eq!(header(&spec, "authorization"), None);
    assert_eq!(spec.body, None);
    assert_eq!(spec.timeout_ms, None);
}

#[test]
fn user_agent_constant() {
    assert_eq!(USER_AGENT, "cnctd_rest");
}

#[test]
fn token_get_decodes_item() {
    let spec = Rest::get_with_auth("https://api.example.com/items/42", "abc").unwrap();
    assert_eq!(header(&spec, "authorization"), Some("token abc"));
    assert_eq!(header(&spec, "user-agent"), Some("cnctd_rest"));
    assert_eq!(spec.headers.len(), 2);

    let raw = String::from("{\"id\":42,\"name\":\"widget\"}");
    let body = check_status(200, raw.clone()).unwrap();
    assert_eq!(body, raw);
    let decoded = decode_json(&body);
    let value = decode_outcome(body, decoded).unwrap();
    assert_eq!(value["id"], serde_json::Value::from(42));
    assert_eq!(value["name"], serde_json::Value::from("widget"));
}

#[test]
fn post_rejected_with_bad_request() {
    let spec = Rest::post("https://api.example.com/items", String::from("{\"name\":\"widget\"}")).unwrap();
    assert_eq!(spec.method, Method::Post);
    assert_eq!(spec.body.as_deref(), Some("{\"name\":\"widget\"}"));
    assert_eq!(header(&spec, "content-type"), Some("application/json"));
    assert_eq!(header(&spec, "authorization"), None);
    let r = check_status(400, String::from("bad request"));
    assert_eq!(
        r,
        Err(RequestError::HttpStatusError { status: 400, body: String::from("bad request") })
    );
}

#[test]
fn bearer_and_token_formats() {
    let spec = Rest::post_with_bearer("https://h.example/x", "s3cr3t", String::from("{}")).unwrap();
    assert_eq!(header(&spec, "authorization"), Some("Bearer s3cr3t"));
    let spec = Rest::post_with_auth("https://h.example/x", "s3cr3t", String::from("{}")).unwrap();
    assert_eq!(header(&spec, "authorization"), Some("token s3cr3t"));
    let spec = RequestSpec::get("https://h.example/x", &AuthMode::BearerHeader(String::from("t")), &Vec::new(), None)
        .unwrap();
    assert_eq!(header(&spec, "authorization"), Some("Bearer t"));
    let spec = RequestSpec::get("https://h.example/x", &AuthMode::NoAuth, &Vec::new(), None).unwrap();
    assert_eq!(header(&spec, "authorization"), None);
}

#[test]
fn empty_token_keeps_single_space() {
    let spec = Rest::get_with_auth("https://h.example/x", "").unwrap();
    assert_eq!(header(&spec, "authorization"), Some("token "));
}

#[test]
fn error_status_wins_over_valid_json() {
    let r = check_status(404, String::from("{\"id\":1}"));
    assert_eq!(
        r,
        Err(RequestError::HttpStatusError { status: 404, body: String::from("{\"id\":1}") })
    );
    assert!(check_status(199, String::new()).is_err());
    assert!(check_status(300, String::new()).is_err());
    assert!(check_status(500, String::new()).is_err());
    assert!(check_status(0, String::new()).is_err());
}

#[test]
fn success_status_bounds() {
    assert_eq!(check_status(200, String::from("a")), Ok(String::from("a")));
    assert_eq!(check_status(204, String::new()), Ok(String::new()));
    assert_eq!(check_status(299, String::from("z")), Ok(String::from("z")));
}

#[test]
fn wrong_shape_is_decode_error() {
    let raw = String::from("[1, 2");
    let body = check_status(200, raw.clone()).unwrap();
    let decoded = serde_json::from_str::<Vec<u32>>(&body).map_err(|e| e.to_string());
    let cause = decoded.clone().unwrap_err();
    let r = decode_outcome(body, decoded);
    assert_eq!(r, Err(RequestError::DecodeError { raw_body: raw, cause }));

    let body = String::from("{\"id\":\"x\"}");
    let decoded = serde_json::from_str::<Vec<u32>>(&body).map_err(|e| e.to_string());
    assert!(matches!(decode_outcome(body, decoded), Err(RequestError::DecodeError { .. })));
}

#[test]
fn echoed_body_decodes_to_same_value() {
    let mut fields = serde_json::Map::new();
    fields.insert(String::from("name"), serde_json::Value::from("widget"));
    fields.insert(String::from("count"), serde_json::Value::from(3));
    fields.insert(String::from("tags"), serde_json::Value::from(vec!["a", "b"]));
    let sent = serde_json::Value::Object(fields);
    let text = serde_json::to_string(&sent).unwrap();
    let spec = Rest::post("https://h.example/echo", text).unwrap();
    let echoed = spec.body.clone().unwrap();
    let body = check_status(200, echoed).unwrap();
    let decoded = decode_json(&body);
    assert_eq!(decode_outcome(body, decoded), Ok(sent));
}

#[test]
fn timeout_is_carried_and_classified() {
    let spec = Rest::get_with_custom_headers_and_timeout("https://h.example/slow", Vec::new(), 1500).unwrap();
    assert_eq!(spec.timeout_ms, Some(1500));
    assert_eq!(spec.headers.len(), 1);
    assert_eq!(
        transport_failure(true, true, String::from("deadline")),
        RequestError::TransportError { kind: TransportKind::Timeout, cause: String::from("deadline") }
    );
    assert_eq!(
        transport_failure(false, true, String::from("refused")),
        RequestError::TransportError { kind: TransportKind::ConnectionFailed, cause: String::from("refused") }
    );
    assert_eq!(
        transport_failure(false, false, String::from("reset")),
        RequestError::TransportError { kind: TransportKind::Other, cause: String::from("reset") }
    );
}

#[test]
fn malformed_url_is_invalid_request() {
    let bad = Err(RequestError::InvalidRequest(InvalidPart::Url));
    assert_eq!(Rest::get("not a url").map(|s| s.url), bad.clone());
    assert_eq!(Rest::get("/items/42").map(|s| s.url), bad.clone());
    assert_eq!(Rest::post("", String::from("{}")).map(|s| s.url), bad);
}

#[test]
fn url_checked_before_headers() {
    let r = Rest::get_with_auth("::", "a\nb");
    assert_eq!(r.map(|s| s.url), Err(RequestError::InvalidRequest(InvalidPart::Url)));
}

#[test]
fn control_character_in_token_is_invalid_request() {
    let r = Rest::get_with_auth("https://h.example/x", "a\nb");
    assert_eq!(r.map(|s| s.url), Err(RequestError::InvalidRequest(InvalidPart::Header)));
    let r = Rest::post_with_bearer("https://h.example/x", "a\u{7f}", String::from("{}"));
    assert_eq!(r.map(|s| s.url), Err(RequestError::InvalidRequest(InvalidPart::Header)));
    let tab = Rest::get_with_auth("https://h.example/x", "a\tb").unwrap();
    assert_eq!(header(&tab, "authorization"), Some("token a\tb"));
}

#[test]
fn bad_custom_header_is_invalid_request() {
    let header_err = Err(RequestError::InvalidRequest(InvalidPart::Header));
    let r = Rest::post_with_headers("https://h.example/x", pairs(&[("bad name", "v")]), String::from("{}"));
    assert_eq!(r.map(|s| s.url), header_err.clone());
    let r = Rest::post_with_headers("https://h.example/x", pairs(&[("", "v")]), String::from("{}"));
    assert_eq!(r.map(|s| s.url), header_err.clone());
    let r = Rest::get_with_custom_headers_and_timeout("https://h.example/x", pairs(&[("X-Ok", "line\r\nbreak")]), 10);
    assert_eq!(r.map(|s| s.url), header_err);
}

#[test]
fn custom_headers_are_canonical_and_last_wins() {
    let spec = Rest::get_with_custom_headers_and_timeout(
        "https://h.example/x",
        pairs(&[("X-Trace", "one"), ("x-trace", "two"), ("Accept", "application/json")]),
        30,
    )
    .unwrap();
    assert_eq!(header(&spec, "x-trace"), Some("two"));
    assert_eq!(header(&spec, "X-Trace"), None);
    assert_eq!(header(&spec, "accept"), Some("application/json"));
    assert_eq!(spec.headers.len(), 3);
}

#[test]
fn caller_headers_override_defaults() {
    let spec = Rest::post_with_headers(
        "https://h.example/x",
        pairs(&[("User-Agent", "mine"), ("Content-Type", "application/vnd.api+json")]),
        String::from("{}"),
    )
    .unwrap();
    assert_eq!(header(&spec, "user-agent"), Some("mine"));
    assert_eq!(header(&spec, "content-type"), Some("application/vnd.api+json"));
    assert_eq!(spec.headers.len(), 2);
    let spec = RequestSpec::get(
        "https://h.example/x",
        &AuthMode::TokenHeader(String::from("abc")),
        &pairs(&[("Authorization", "Bearer other")]),
        None,
    )
    .unwrap();
    assert_eq!(header(&spec, "authorization"), Some("Bearer other"));
}

#[test]
fn empty_custom_headers_equal_none() {
    let a = Rest::post_with_headers("https://h.example/x", Vec::new(), String::from("{}")).unwrap();
    let b = Rest::post("https://h.example/x", String::from("{}")).unwrap();
    assert_eq!(a.headers.entries, b.headers.entries);
    assert_eq!(a.body, b.body);
}
