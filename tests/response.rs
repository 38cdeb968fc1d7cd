use wasm_http::body::{FieldValue, FormField};
use wasm_http::call::Call;
use wasm_http::decode::{body_read, decode_body, BodyRead, ResponseBody};
use wasm_http::error::Error;
use wasm_http::headers::prepare_response_headers;
use wasm_http::json::{convert_numbers, JsonNumber, JsonValue};
use wasm_http::kind::{HttpRequestType, Method};

fn num(n: u64) -> JsonValue {
    JsonValue::Number(JsonNumber::PosInt(n))
}

fn text(s: &str) -> JsonValue {
    JsonValue::String(s.to_string())
}

fn float(f: f64) -> JsonValue {
    JsonValue::Number(JsonNumber::Float { bits: f.to_bits(), text: format!("{:?}", f) })
}

fn sample() -> JsonValue {
    JsonValue::Object(vec![
        ("id".to_string(), num(9007199254740993)),
        ("small".to_string(), num(42)),
        ("neg".to_string(), JsonValue::Number(JsonNumber::NegInt(-9007199254740993))),
        ("list".to_string(), JsonValue::Array(vec![num(1), float(1e300), float(2.5), JsonValue::Null])),
        ("flag".to_string(), JsonValue::Bool(false)),
    ])
}

#[test]
fn number_above_safe_bound_becomes_text() {
    assert_eq!(convert_numbers(num(9007199254740993)), text("9007199254740993"));
    assert_eq!(convert_numbers(num(9007199254740992)), text("9007199254740992"));
    assert_eq!(convert_numbers(num(9007199254740991)), num(9007199254740991));
    assert_eq!(convert_numbers(num(u64::MAX)), text("18446744073709551615"));
}

#[test]
fn negative_number_below_safe_bound_becomes_text() {
    let n = |v: i64| JsonValue::Number(JsonNumber::NegInt(v));
    assert_eq!(convert_numbers(n(-9007199254740993)), text("-9007199254740993"));
    assert_eq!(convert_numbers(n(-9007199254740991)), n(-9007199254740991));
    assert_eq!(convert_numbers(n(i64::MIN)), text("-9223372036854775808"));
}

#[test]
fn large_and_non_finite_floats_become_text() {
    assert_eq!(convert_numbers(float(1e300)), text("1e300"));
    assert_eq!(convert_numbers(float(-9007199254740992.0)), text("-9007199254740992.0"));
    assert_eq!(convert_numbers(float(f64::INFINITY)), text("inf"));
    assert_eq!(convert_numbers(float(f64::NAN)), text("NaN"));
    assert_eq!(convert_numbers(float(9007199254740991.0)), float(9007199254740991.0));
    assert_eq!(convert_numbers(float(-0.5)), float(-0.5));
}

#[test]
fn safety_pass_walks_arrays_and_objects() {
    let expected = JsonValue::Object(vec![
        ("id".to_string(), text("9007199254740993")),
        ("small".to_string(), num(42)),
        ("neg".to_string(), text("-9007199254740993")),
        ("list".to_string(), JsonValue::Array(vec![num(1), text("1e300"), float(2.5), JsonValue::Null])),
        ("flag".to_string(), JsonValue::Bool(false)),
    ]);
    assert_eq!(convert_numbers(sample()), expected);
}

#[test]
fn safety_pass_twice_changes_nothing() {
    let once = convert_numbers(sample());
    let twice = convert_numbers(convert_numbers(sample()));
    assert_eq!(once, twice);
}

#[test]
fn safe_value_survives_the_echo() {
    let value = || {
        JsonValue::Object(vec![
            ("a".to_string(), num(9007199254740991)),
            ("b".to_string(), JsonValue::Array(vec![JsonValue::Number(JsonNumber::NegInt(-3)), text("x")])),
        ])
    };
    let r = Call::prepare_response(200, vec![], Method::Post, ResponseBody::Text(Some(value())));
    assert_eq!(r.body, value());
    assert_eq!(r.error, "");
}

#[test]
fn form_data_response_decodes_to_object() {
    let fields = vec![
        FormField { name: "a".to_string(), value: FieldValue::Text("1".to_string()) },
        FormField { name: "b".to_string(), value: FieldValue::Text("2".to_string()) },
    ];
    let r = Call::prepare_response(200, vec![], Method::Get, ResponseBody::Fields(fields));
    assert_eq!(r.body, JsonValue::Object(vec![("a".to_string(), text("1")), ("b".to_string(), text("2"))]));
}

#[test]
fn form_data_drops_files_and_keeps_last_value() {
    let fields = vec![
        FormField { name: "a".to_string(), value: FieldValue::Text("1".to_string()) },
        FormField { name: "f".to_string(), value: FieldValue::File(vec![9]) },
        FormField { name: "a".to_string(), value: FieldValue::Text("3".to_string()) },
    ];
    let body = decode_body(Method::Post, ResponseBody::Fields(fields)).unwrap();
    assert_eq!(body, JsonValue::Object(vec![("a".to_string(), text("3"))]));
}

#[test]
fn blob_response_wraps_bytes() {
    let body = decode_body(Method::Put, ResponseBody::Bytes(vec![0, 7, 255])).unwrap();
    assert_eq!(body, JsonValue::Object(vec![("binary".to_string(), JsonValue::Array(vec![num(0), num(7), num(255)]))]));
    let empty = decode_body(Method::Get, ResponseBody::Bytes(vec![])).unwrap();
    assert_eq!(empty, JsonValue::Object(vec![("binary".to_string(), JsonValue::Array(vec![]))]));
}

#[test]
fn text_body_of_other_methods_is_null() {
    assert_eq!(decode_body(Method::Put, ResponseBody::Text(Some(num(1)))).unwrap(), JsonValue::Null);
    assert_eq!(decode_body(Method::Delete, ResponseBody::Text(None)).unwrap(), JsonValue::Null);
}

#[test]
fn malformed_json_is_missing_response_body() {
    assert_eq!(decode_body(Method::Get, ResponseBody::Text(None)).unwrap_err(), Error::MissingResponseBody);
    let r = Call::prepare_response(200, vec![("a".to_string(), "b".to_string())], Method::Post, ResponseBody::Text(None));
    assert_eq!(r.status_code, 200);
    assert_eq!(r.body, JsonValue::Null);
    assert_eq!(r.error, "missing response body in HTTP call");
    assert_eq!(r.headers, vec![("a".to_string(), "b".to_string())]);
}

#[test]
fn envelope_keeps_status_and_decodes() {
    let r = Call::prepare_response(404, vec![], Method::Get, ResponseBody::Text(Some(num(9007199254740993))));
    assert_eq!(r.status_code, 404);
    assert_eq!(r.body, text("9007199254740993"));
    assert_eq!(r.error, "");
}

#[test]
fn response_headers_last_write_wins() {
    let raw = vec![
        ("a".to_string(), "1".to_string()),
        ("b".to_string(), "2".to_string()),
        ("a".to_string(), "3".to_string()),
        ("A".to_string(), "4".to_string()),
    ];
    assert_eq!(
        prepare_response_headers(raw),
        vec![("a".to_string(), "3".to_string()), ("b".to_string(), "2".to_string()), ("A".to_string(), "4".to_string())]
    );
    assert!(prepare_response_headers(vec![]).is_empty());
}

#[test]
fn response_kind_decides_how_to_read() {
    assert_eq!(body_read(Some(HttpRequestType::Blob)), BodyRead::Bytes);
    assert_eq!(body_read(Some(HttpRequestType::FormData)), BodyRead::Fields);
    assert_eq!(body_read(Some(HttpRequestType::Html)), BodyRead::Text);
    assert_eq!(body_read(None), BodyRead::Text);
}
