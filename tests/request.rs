use wasm_http::body::{FieldValue, FormField, HttpBody, OutboundBody};
use wasm_http::call::{Call, HttpRequestOptions, TransportRequest, NO_TIMEOUT, TIMEOUT};
use wasm_http::error::Error;
use wasm_http::json::{JsonNumber, JsonValue};
use wasm_http::kind::{HttpRequestType, Method};
use wasm_http::profile::Credentials;

fn options(method: Option<&str>, kind: Option<HttpRequestType>, data: HttpBody) -> HttpRequestOptions {
    HttpRequestOptions {
        url: "https://example.com/api".to_string(),
        method: method.map(|m| m.to_string()),
        data,
        headers: None,
        timeout: None,
        request_type: kind,
        response_type: None,
    }
}

fn header<'a>(t: &'a TransportRequest, name: &str) -> Vec<&'a str> {
    t.headers
        .iter()
        .filter(|(n, _)| n.eq_ignore_ascii_case(name))
        .map(|(_, v)| v.as_str())
        .collect()
}

fn pairs(list: &[(&str, &str)]) -> Vec<(String, String)> {
    list.iter().map(|(k, v)| (k.to_string(), v.to_string())).collect()
}

#[test]
fn content_type_follows_each_kind() {
    let cases = [
        (HttpRequestType::Json, HttpBody::Json(JsonValue::Null), "application/json;charset=UTF-8"),
        (HttpRequestType::FormSubmit, HttpBody::FormPairs(pairs(&[("a", "1")])), "application/x-www-form-urlencoded"),
        (HttpRequestType::FormData, HttpBody::Multipart(vec![]), "multipart/form-data"),
        (HttpRequestType::Blob, HttpBody::Raw(vec![1, 2]), "application/octet-stream"),
        (HttpRequestType::Text, HttpBody::Text("hi".to_string()), "text/plain;charset=UTF-8"),
        (HttpRequestType::Html, HttpBody::Text("<p/>".to_string()), "text/html;charset=UTF-8"),
    ];
    for (kind, data, mime) in cases {
        let t = Call::prepare_request(options(None, Some(kind), data)).unwrap();
        assert_eq!(header(&t, "content-type"), vec![mime]);
        assert_eq!(kind.get_content_type(), mime);
    }
}

#[test]
fn caller_content_type_wins() {
    let mut o = options(Some("post"), Some(HttpRequestType::Json), HttpBody::Json(JsonValue::Null));
    o.headers = Some(pairs(&[("Content-Type", "text/plain")]));
    let t = Call::prepare_request(o).unwrap();
    assert_eq!(header(&t, "content-type"), vec!["text/plain"]);
    assert_eq!(t.headers.len(), 1);
}

#[test]
fn caller_headers_follow_the_content_type() {
    let mut o = options(None, Some(HttpRequestType::Json), HttpBody::Json(JsonValue::Null));
    o.headers = Some(pairs(&[("X-Token", "a"), ("Accept", "*/*"), ("x-token", "b")]));
    let t = Call::prepare_request(o).unwrap();
    assert_eq!(
        t.headers,
        pairs(&[("content-type", "application/json;charset=UTF-8"), ("x-token", "b"), ("Accept", "*/*")])
    );
}

#[test]
fn no_kind_no_content_type() {
    let t = Call::prepare_request(options(None, None, HttpBody::Absent)).unwrap();
    assert!(t.headers.is_empty());
    assert_eq!(t.body, None);
}

#[test]
fn get_request_omits_json_body() {
    let data = HttpBody::Json(JsonValue::Object(vec![("a".to_string(), JsonValue::Bool(true))]));
    let t = Call::prepare_request(options(Some("GET"), Some(HttpRequestType::Json), data)).unwrap();
    assert_eq!(t.method, Method::Get);
    assert_eq!(t.body, None);
}

#[test]
fn get_request_skips_body_encoding() {
    let t = Call::prepare_request(options(Some("get"), Some(HttpRequestType::FormSubmit), HttpBody::Absent)).unwrap();
    assert_eq!(t.body, None);
}

#[test]
fn method_names_resolve_without_case() {
    for (name, m) in [("GET", Method::Get), ("Put", Method::Put), ("delete", Method::Delete), ("post", Method::Post), ("PATCH", Method::Post)] {
        let t = Call::prepare_request(options(Some(name), None, HttpBody::Absent)).unwrap();
        assert_eq!(t.method, m);
    }
    let t = Call::prepare_request(options(None, None, HttpBody::Absent)).unwrap();
    assert_eq!(t.method, Method::Post);
    assert_eq!(t.method.as_str(), "POST");
    assert_eq!(Method::Delete.as_str(), "DELETE");
}

#[test]
fn json_body_is_handed_over() {
    let value = JsonValue::Array(vec![JsonValue::Number(JsonNumber::PosInt(7))]);
    let t = Call::prepare_request(options(None, None, HttpBody::Json(value))).unwrap();
    assert_eq!(t.body, Some(OutboundBody::Json(JsonValue::Array(vec![JsonValue::Number(JsonNumber::PosInt(7))]))));
    assert_eq!(t.credentials, Credentials::SameOrigin);
    assert_eq!(t.url, "https://example.com/api");
}

#[test]
fn form_pairs_join_with_ampersand() {
    let data = HttpBody::FormPairs(pairs(&[("a", "1"), ("b", "two words"), ("c", "")]));
    let t = Call::prepare_request(options(None, Some(HttpRequestType::FormSubmit), data)).unwrap();
    assert_eq!(t.body, Some(OutboundBody::Text("a=1&b=two words&c=".to_string())));
}

#[test]
fn empty_form_pairs_give_empty_text() {
    let t = Call::prepare_request(options(None, Some(HttpRequestType::FormSubmit), HttpBody::FormPairs(vec![]))).unwrap();
    assert_eq!(t.body, Some(OutboundBody::Text(String::new())));
}

#[test]
fn blob_text_and_multipart_pass_through() {
    let t = Call::prepare_request(options(None, Some(HttpRequestType::Blob), HttpBody::Raw(vec![0, 255]))).unwrap();
    assert_eq!(t.body, Some(OutboundBody::Bytes(vec![0, 255])));
    let t = Call::prepare_request(options(Some("put"), Some(HttpRequestType::Html), HttpBody::Text("<b>x</b>".to_string()))).unwrap();
    assert_eq!(t.body, Some(OutboundBody::Text("<b>x</b>".to_string())));
    let parts = vec![FormField { name: "f".to_string(), value: FieldValue::File(vec![1]) }];
    let t = Call::prepare_request(options(None, Some(HttpRequestType::FormData), HttpBody::Multipart(parts))).unwrap();
    assert_eq!(
        t.body,
        Some(OutboundBody::Multipart(vec![FormField { name: "f".to_string(), value: FieldValue::File(vec![1]) }]))
    );
}

#[test]
fn empty_url_is_a_validation_error() {
    let mut o = options(None, None, HttpBody::Absent);
    o.url = String::new();
    assert!(matches!(Call::prepare_request(o), Err(Error::ValidationError(_))));
}

#[test]
fn bad_header_is_rejected() {
    let mut o = options(None, None, HttpBody::Absent);
    o.headers = Some(pairs(&[("Good", "ok"), ("X-Bad", "line\nbreak")]));
    assert_eq!(Call::prepare_request(o).unwrap_err(), Error::InvalidHeaderValue("X-Bad".to_string()));
    let mut o = options(None, None, HttpBody::Absent);
    o.headers = Some(pairs(&[("bad name", "v")]));
    assert_eq!(Call::prepare_request(o).unwrap_err(), Error::InvalidHeaderValue("bad name".to_string()));
    let mut o = options(None, None, HttpBody::Absent);
    o.headers = Some(pairs(&[("", "v")]));
    assert!(matches!(Call::prepare_request(o), Err(Error::InvalidHeaderValue(_))));
}

#[test]
fn missing_form_pairs_is_a_body_encoding_error() {
    let r = Call::prepare_request(options(None, Some(HttpRequestType::FormSubmit), HttpBody::Absent));
    assert!(matches!(r, Err(Error::BodyEncodingError(_))));
    let r = Call::prepare_request(options(None, Some(HttpRequestType::Blob), HttpBody::Text("x".to_string())));
    assert!(matches!(r, Err(Error::BodyEncodingError(_))));
    let r = Call::prepare_request(options(None, Some(HttpRequestType::Text), HttpBody::Json(JsonValue::Null)));
    assert!(matches!(r, Err(Error::BodyEncodingError(_))));
}

#[test]
fn timeout_rules() {
    assert_eq!(Call::prepare_request_timeout(None), TIMEOUT);
    assert_eq!(TIMEOUT, 30);
    assert_eq!(Call::prepare_request_timeout(Some(-1)), NO_TIMEOUT);
    assert_eq!(Call::prepare_request_timeout(Some(0)), 30);
    assert_eq!(Call::prepare_request_timeout(Some(-7)), 30);
    assert_eq!(Call::prepare_request_timeout(Some(i32::MIN)), 30);
    assert_eq!(Call::prepare_request_timeout(Some(5)), 5);
    assert_eq!(Call::prepare_request_timeout(Some(i32::MAX)), i32::MAX);
}

#[test]
fn deadline_in_milliseconds() {
    assert_eq!(Call::deadline_millis(None), Some(30_000));
    assert_eq!(Call::deadline_millis(Some(-1)), None);
    assert_eq!(Call::deadline_millis(Some(0)), Some(30_000));
    assert_eq!(Call::deadline_millis(Some(1)), Some(1_000));
    assert_eq!(Call::deadline_millis(Some(i32::MAX)), Some(i32::MAX as u64 * 1000));
    let mut o = options(None, None, HttpBody::Absent);
    o.timeout = Some(-1);
    assert_eq!(Call::prepare_request(o).unwrap().deadline_ms, None);
}

#[test]
fn timeout_from_text_trims_and_parses() {
    assert_eq!(Call::timeout_from_text(" 12 "), 12);
    assert_eq!(Call::timeout_from_text("-1"), -1);
    assert_eq!(Call::timeout_from_text("+4"), 4);
    assert_eq!(Call::timeout_from_text("abc"), 0);
    assert_eq!(Call::timeout_from_text(""), 0);
    assert_eq!(Call::timeout_from_text("99999999999"), 0);
}
