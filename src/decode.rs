//! Decoding a response body into a structured value.
use vstd::prelude::*;

use crate::body::{FieldValue, FormField};
use crate::error::Error;
use crate::headers::{response_headers, set_header, view_headers, HeaderModel};
use crate::json::{Json, JsonNumber, JsonValue, NumberModel};
use crate::kind::{HttpRequestType, Method};

verus! {

/// How the body of a response is read.
#[derive(Debug, Clone, Copy, PartialEq, Eq, Structural)]
pub enum BodyRead {
    /// As raw bytes.
    Bytes,
    /// As form fields.
    Fields,
    /// As text, then as JSON.
    Text,
}

/// A response body as it was read.
#[derive(Debug, PartialEq)]
pub enum ResponseBody {
    Bytes(Vec<u8>),
    Fields(Vec<FormField>),
    /// Text, with its JSON value when it holds valid JSON.
    Text(Option<JsonValue>),
}

/// How a declared response kind reads the body; without one it is read as
/// text.
pub open spec fn read_of(kind: Option<HttpRequestType>) -> BodyRead {
    match kind {
        Some(HttpRequestType::Blob) => BodyRead::Bytes,
        Some(HttpRequestType::FormData) => BodyRead::Fields,
        _ => BodyRead::Text,
    }
}

/// How a declared response kind reads the body.
pub fn body_read(kind: Option<HttpRequestType>) -> (r: BodyRead)
    ensures
        r == read_of(kind),
{
    match kind {
        Some(HttpRequestType::Blob) => BodyRead::Bytes,
        Some(HttpRequestType::FormData) => BodyRead::Fields,
        _ => BodyRead::Text,
    }
}

/// The name the bytes of a binary body stand under.
pub open spec fn binary_key() -> Seq<char> {
    "binary"@
}

/// Raw bytes as `{"binary": [byte, ...]}`.
pub open spec fn binary_json(bytes: Seq<u8>) -> Json {
    Json::Obj(
        seq![
            (
                binary_key(),
                Json::Arr(Seq::new(bytes.len(), |i: int| Json::Num(NumberModel::Int(bytes[i] as int)))),
            ),
        ],
    )
}

/// The text fields of a form, in order; other fields are dropped.
pub open spec fn text_fields(fields: Seq<FormField>) -> Seq<HeaderModel>
    decreases fields.len(),
{
    if fields.len() == 0 {
        seq![]
    } else {
        let front = text_fields(fields.drop_last());
        match fields.last().value {
            FieldValue::Text(t) => front.push((fields.last().name@, t@)),
            FieldValue::File(_) => front,
        }
    }
}

/// Form fields as an object from each name to the text of its last text
/// field.
pub open spec fn form_json(fields: Seq<FormField>) -> Json {
    Json::Obj(
        response_headers(text_fields(fields)).map_values(
            |h: HeaderModel| (h.0, Json::Str(h.1)),
        ),
    )
}

/// Only `GET` and `POST` responses carry a JSON body.
pub open spec fn reads_json(method: Method) -> bool {
    method == Method::Get || method == Method::Post
}

/// What a response body decodes to; `None` when it should hold JSON and does
/// not.
pub open spec fn decoded(method: Method, body: ResponseBody) -> Option<Json> {
    match body {
        ResponseBody::Bytes(b) => Some(binary_json(b@)),
        ResponseBody::Fields(f) => Some(form_json(f@)),
        ResponseBody::Text(parsed) => if reads_json(method) {
            match parsed {
                Some(v) => Some(v.model()),
                None => None,
            }
        } else {
            Some(Json::Null)
        },
    }
}

/// Wraps raw bytes as `{"binary": [byte, ...]}`.
pub fn decode_bytes(bytes: Vec<u8>) -> (r: JsonValue)
    ensures
        r.model() == binary_json(bytes@),
{
    let mut items: Vec<JsonValue> = Vec::new();
    let mut i: usize = 0;
    while i < bytes.len()
        invariant
            i <= bytes.len(),
            items.len() == i,
            forall|k: int|
                0 <= k < i ==> #[trigger] items@[k].model() == Json::Num(
                    NumberModel::Int(bytes@[k] as int),
                ),
        decreases bytes.len() - i,
    {
        items.push(JsonValue::Number(JsonNumber::PosInt(bytes[i] as u64)));
        i = i + 1;
    }
    let ghost item_models = items@;
    let arr = JsonValue::Array(items);
    let ghost expected = Seq::new(
        bytes@.len(),
        |k: int| Json::Num(NumberModel::Int(bytes@[k] as int)),
    );
    assert forall|k: int| 0 <= k < bytes.len() implies arr.model()->Arr_0[k] == expected[k] by {
        assert(item_models[k].model() == Json::Num(NumberModel::Int(bytes@[k] as int)));
    }
    assert(arr.model()->Arr_0 =~= expected);
    let key = "binary".to_owned();
    let r = JsonValue::Object(vec![(key, arr)]);
    assert(r.model()->Obj_0 =~= seq![(binary_key(), Json::Arr(expected))]);
    r
}

/// Builds an object from each field name to the text of its last text field;
/// fields that are not text are dropped.
pub fn decode_fields(fields: Vec<FormField>) -> (r: JsonValue)
    ensures
        r.model() == form_json(fields@),
{
    let mut acc: Vec<(String, String)> = Vec::new();
    let mut i: usize = 0;
    while i < fields.len()
        invariant
            i <= fields.len(),
            view_headers(acc@) == crate::headers::overlay_all(
                seq![],
                text_fields(fields@.take(i as int)),
                false,
            ),
        decreases fields.len() - i,
    {
        assert(fields@.take(i + 1).drop_last() =~= fields@.take(i as int));
        assert(fields@.take(i + 1).last() == fields@[i as int]);
        match &fields[i].value {
            FieldValue::Text(t) => {
                let ghost before = text_fields(fields@.take(i as int));
                set_header(&mut acc, fields[i].name.clone(), t.clone(), false);
                assert(text_fields(fields@.take(i + 1)).drop_last() =~= before);
            },
            FieldValue::File(_) => {},
        }
        i = i + 1;
    }
    assert(fields@.take(i as int) =~= fields@);
    let ghost hm = view_headers(acc@);
    let mut out: Vec<(String, JsonValue)> = Vec::new();
    let n = acc.len();
    while acc.len() > 0
        invariant
            n == hm.len(),
            out.len() + acc.len() == n,
            view_headers(acc@) == hm.subrange(out.len() as int, n as int),
            forall|k: int|
                0 <= k < out.len() ==> #[trigger] out@[k].0@ == hm[k].0 && out@[k].1.model()
                    == Json::Str(hm[k].1),
        decreases acc.len(),
    {
        let ghost before = acc@;
        let ghost j = out.len() as int;
        assert(view_headers(before)[0] == hm[j]);
        let (name, text) = acc.remove(0);
        assert forall|k: int| 0 <= k < acc.len() implies #[trigger] view_headers(acc@)[k] == hm[j
            + 1 + k] by {
            assert(acc@[k] == before[k + 1]);
            assert(view_headers(before)[k + 1] == hm[j + 1 + k]);
        }
        assert(view_headers(acc@) =~= hm.subrange(j + 1, n as int));
        out.push((name, JsonValue::String(text)));
    }
    let r = JsonValue::Object(out);
    assert(r.model()->Obj_0 =~= form_json(fields@)->Obj_0);
    r
}

/// Decodes a response body: bytes as `{"binary": [...]}`, form fields as an
/// object of their texts, text as its JSON value for `GET` and `POST` and as
/// null for other methods. Text that should hold JSON and does not fails
/// with `MissingResponseBody`.
pub fn decode_body(method: Method, body: ResponseBody) -> (r: Result<JsonValue, Error>)
    ensures
        match decoded(method, body) {
            Some(j) => r matches Ok(v) && v.model() == j,
            None => r matches Err(Error::MissingResponseBody),
        },
{
    match body {
        ResponseBody::Bytes(b) => Ok(decode_bytes(b)),
        ResponseBody::Fields(f) => Ok(decode_fields(f)),
        ResponseBody::Text(parsed) => {
            if method == Method::Get || method == Method::Post {
                match parsed {
                    Some(v) => Ok(v),
                    None => Err(Error::MissingResponseBody),
                }
            } else {
                Ok(JsonValue::Null)
            }
        },
    }
}

} // verus!
