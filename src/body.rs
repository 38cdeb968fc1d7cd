//! Request bodies and how each content kind encodes them.
use vstd::prelude::*;
use vstd::string::StringExecFns;

use crate::error::Error;
use crate::headers::{view_headers, HeaderModel};
use crate::json::JsonValue;
use crate::kind::HttpRequestType;

verus! {

/// The value of a form field.
#[derive(Debug, PartialEq)]
pub enum FieldValue {
    Text(String),
    /// File contents.
    File(Vec<u8>),
}

/// A named field of a multipart form.
#[derive(Debug, PartialEq)]
pub struct FormField {
    pub name: String,
    pub value: FieldValue,
}

/// The body a caller hands over, before encoding.
#[derive(Debug, PartialEq)]
pub enum HttpBody {
    Absent,
    /// Raw bytes.
    Raw(Vec<u8>),
    /// A raw string.
    Text(String),
    /// A structured value, to be sent as JSON.
    Json(JsonValue),
    /// Key/value pairs of a URL-encoded form.
    FormPairs(Vec<(String, String)>),
    /// Parts of a multipart form.
    Multipart(Vec<FormField>),
}

/// The body as the transport sends it.
#[derive(Debug, PartialEq)]
pub enum OutboundBody {
    /// A structured value, serialised as JSON text on the wire.
    Json(JsonValue),
    Text(String),
    Bytes(Vec<u8>),
    Multipart(Vec<FormField>),
}

/// One pair of a URL-encoded form: `key=value`.
pub open spec fn pair_text(p: HeaderModel) -> Seq<char> {
    p.0 + seq!['='] + p.1
}

/// Pairs of a URL-encoded form as `key=value`, joined with `&`.
pub open spec fn form_urlencoded(pairs: Seq<HeaderModel>) -> Seq<char>
    decreases pairs.len(),
{
    if pairs.len() == 0 {
        seq![]
    } else if pairs.len() == 1 {
        pair_text(pairs[0])
    } else {
        form_urlencoded(pairs.drop_last()) + seq!['&'] + pair_text(pairs.last())
    }
}

/// The body a kind encodes a structured value as: JSON, for no declared kind
/// or for `Json`.
pub open spec fn takes_json(kind: Option<HttpRequestType>) -> bool {
    kind is None || kind == Some(HttpRequestType::Json)
}

/// What encoding a body under a declared kind gives: the shape the kind needs
/// is encoded; a body without it fails with `BodyEncodingError`; no body and
/// no kind give no body.
pub open spec fn encoded(
    kind: Option<HttpRequestType>,
    body: HttpBody,
    r: Result<Option<OutboundBody>, Error>,
) -> bool {
    let fails = r matches Err(e) && e is BodyEncodingError;
    match body {
        HttpBody::Absent => if kind is None {
            r == Ok::<Option<OutboundBody>, Error>(None)
        } else {
            fails
        },
        HttpBody::Json(v) => if takes_json(kind) {
            r == Ok::<Option<OutboundBody>, Error>(Some(OutboundBody::Json(v)))
        } else {
            fails
        },
        HttpBody::FormPairs(p) => if kind == Some(HttpRequestType::FormSubmit) {
            r matches Ok(Some(OutboundBody::Text(s))) && s@ == form_urlencoded(view_headers(p@))
        } else {
            fails
        },
        HttpBody::Multipart(f) => if kind == Some(HttpRequestType::FormData) {
            r == Ok::<Option<OutboundBody>, Error>(Some(OutboundBody::Multipart(f)))
        } else {
            fails
        },
        HttpBody::Raw(b) => if kind == Some(HttpRequestType::Blob) {
            r == Ok::<Option<OutboundBody>, Error>(Some(OutboundBody::Bytes(b)))
        } else {
            fails
        },
        HttpBody::Text(t) => if kind == Some(HttpRequestType::Text) || kind == Some(
            HttpRequestType::Html,
        ) {
            r == Ok::<Option<OutboundBody>, Error>(Some(OutboundBody::Text(t)))
        } else {
            fails
        },
    }
}

/// Joins the pairs of a URL-encoded form as `key=value` with `&`.
pub fn join_form_pairs(pairs: &Vec<(String, String)>) -> (r: String)
    ensures
        r@ == form_urlencoded(view_headers(pairs@)),
{
    let ghost pm = view_headers(pairs@);
    proof {
        reveal_strlit("=");
        reveal_strlit("&");
    }
    let mut out = String::new();
    let mut i: usize = 0;
    while i < pairs.len()
        invariant
            pm == view_headers(pairs@),
            i <= pairs.len(),
            out@ == form_urlencoded(pm.take(i as int)),
            "="@ == seq!['='],
            "&"@ == seq!['&'],
        decreases pairs.len() - i,
    {
        assert(pm.take(i + 1).drop_last() =~= pm.take(i as int));
        assert(pm.take(i + 1).last() == pm[i as int]);
        if i > 0 {
            out.append("&");
        }
        out.append(pairs[i].0.as_str());
        out.append("=");
        out.append(pairs[i].1.as_str());
        proof {
            if i == 0 {
                assert(out@ =~= pair_text(pm[0]));
            } else {
                assert(out@ =~= form_urlencoded(pm.take(i as int)) + seq!['&'] + pair_text(pm[i as int]));
            }
        }
        i = i + 1;
    }
    assert(pm.take(i as int) =~= pm);
    out
}

/// Encodes a body under its declared kind: a structured value as JSON (no
/// kind or `Json`), pairs joined as `key=value` with `&` (`FormSubmit`),
/// parts as they are (`FormData`), raw bytes (`Blob`), a raw string (`Text`,
/// `Html`). A body without the shape its kind needs fails.
pub fn encode_body(kind: Option<HttpRequestType>, body: HttpBody) -> (r: Result<
    Option<OutboundBody>,
    Error,
>)
    ensures
        encoded(kind, body, r),
{
    match body {
        HttpBody::Absent => match kind {
            None => Ok(None),
            Some(_) => Err(Error::BodyEncodingError("the declared kind needs a body".to_owned())),
        },
        HttpBody::Json(v) => match kind {
            None | Some(HttpRequestType::Json) => Ok(Some(OutboundBody::Json(v))),
            Some(_) => Err(
                Error::BodyEncodingError("a structured value needs the JSON kind".to_owned()),
            ),
        },
        HttpBody::FormPairs(p) => match kind {
            Some(HttpRequestType::FormSubmit) => Ok(Some(OutboundBody::Text(join_form_pairs(&p)))),
            _ => Err(
                Error::BodyEncodingError("key/value pairs need the form kind".to_owned()),
            ),
        },
        HttpBody::Multipart(f) => match kind {
            Some(HttpRequestType::FormData) => Ok(Some(OutboundBody::Multipart(f))),
            _ => Err(
                Error::BodyEncodingError("form parts need the multipart kind".to_owned()),
            ),
        },
        HttpBody::Raw(b) => match kind {
            Some(HttpRequestType::Blob) => Ok(Some(OutboundBody::Bytes(b))),
            _ => Err(Error::BodyEncodingError("raw bytes need the blob kind".to_owned())),
        },
        HttpBody::Text(t) => match kind {
            Some(HttpRequestType::Text) | Some(HttpRequestType::Html) => Ok(
                Some(OutboundBody::Text(t)),
            ),
            _ => Err(
                Error::BodyEncodingError("a raw string needs the text or HTML kind".to_owned()),
            ),
        },
    }
}

} // verus!
