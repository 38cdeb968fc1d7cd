//! One call: its options, the transport request assembled from them, its
//! deadline, and the envelope built from the response.
use vstd::prelude::*;
use vstd::string::StrSliceExecFns;

use crate::body::{encode_body, encoded, takes_json, HttpBody, OutboundBody};
use crate::decode::{decode_body, decoded, reads_json, ResponseBody};
use crate::error::Error;
use crate::headers::{
    header_ok, outbound_headers, prepare_headers, prepare_response_headers, response_headers,
    view_headers, HeaderModel,
};
use crate::json::{all_numbers_safe, convert_numbers, lemma_safe_value_unchanged, make_safe, Json, JsonValue};
use crate::kind::{method_of, parse_i32, i32_of_text, HttpRequestType, Method};
use crate::profile::Credentials;
use crate::text::{trim, trimmed};

verus! {

/// Seconds a call may take when no timeout is given.
pub const TIMEOUT: i32 = 30;

/// The timeout that disables the deadline.
pub const NO_TIMEOUT: i32 = -1;

/// The description of one call.
#[derive(Debug)]
pub struct HttpRequestOptions {
    /// Must not be empty.
    pub url: String,
    /// `GET`, `POST`, `PUT` or `DELETE` in any case; `POST` when absent.
    pub method: Option<String>,
    pub data: HttpBody,
    /// Caller headers, in order; names match without regard to case.
    pub headers: Option<Vec<(String, String)>>,
    /// Seconds; see [`Call::prepare_request_timeout`].
    pub timeout: Option<i32>,
    /// How the body is encoded.
    pub request_type: Option<HttpRequestType>,
    /// How the response body is decoded; as text when absent.
    pub response_type: Option<HttpRequestType>,
}

/// The request as the transport receives it.
#[derive(Debug)]
pub struct TransportRequest {
    pub url: String,
    pub method: Method,
    pub headers: Vec<(String, String)>,
    /// Never present for `GET`.
    pub body: Option<OutboundBody>,
    /// Always `SameOrigin`.
    pub credentials: Credentials,
    /// Milliseconds after which the call is cancelled; none when the deadline
    /// is disabled.
    pub deadline_ms: Option<u64>,
}

/// The uniform result of a call.
#[derive(Debug)]
pub struct HttpResponseOptions {
    pub status_code: u16,
    /// Each name once, with the value of the last header that carried it.
    pub headers: Vec<(String, String)>,
    pub body: JsonValue,
    /// Empty on success.
    pub error: String,
}

/// The caller headers of a call, none when absent.
pub open spec fn caller_headers(headers: Option<Vec<(String, String)>>) -> Seq<HeaderModel> {
    match headers {
        Some(h) => view_headers(h@),
        None => seq![],
    }
}

/// Some caller header cannot be sent.
pub open spec fn has_bad_header(headers: Seq<HeaderModel>) -> bool {
    exists|i: int| 0 <= i < headers.len() && !header_ok(#[trigger] headers[i])
}

/// The timeout in seconds that a call uses: the default when none is given,
/// `-1` (no deadline) for `-1`, a positive value as it is, and the default
/// for any other value.
pub open spec fn timeout_of(timeout: Option<i32>) -> int {
    match timeout {
        None => TIMEOUT as int,
        Some(t) => if t == NO_TIMEOUT {
            NO_TIMEOUT as int
        } else if t > 0 {
            t as int
        } else {
            TIMEOUT as int
        },
    }
}

/// The deadline of a call in milliseconds, none when disabled.
pub open spec fn deadline_of(timeout: Option<i32>) -> Option<int> {
    if timeout_of(timeout) == NO_TIMEOUT {
        None
    } else {
        Some(timeout_of(timeout) * 1000)
    }
}

/// The message of an envelope whose body should hold JSON and does not.
pub open spec fn missing_body_message() -> Seq<char> {
    "missing response body in HTTP call"@
}

/// The steps of one call.
pub struct Call;

impl Call {
    /// The timeout in seconds that a call uses: `TIMEOUT` when none is given,
    /// `NO_TIMEOUT` for `-1`, a positive value as it is, and `TIMEOUT` for
    /// zero and other negative values.
    pub fn prepare_request_timeout(timeout: Option<i32>) -> (r: i32)
        ensures
            r as int == timeout_of(timeout),
    {
        let mut request_timeout = TIMEOUT;
        if let Some(t) = timeout {
            if t == NO_TIMEOUT {
                request_timeout = NO_TIMEOUT;
            } else if t > 0 {
                request_timeout = t;
            }
        }
        request_timeout
    }

    /// The deadline of a call in milliseconds, none when disabled.
    pub fn deadline_millis(timeout: Option<i32>) -> (r: Option<u64>)
        ensures
            match deadline_of(timeout) {
                Some(ms) => r == Some(ms as u64),
                None => r is None,
            },
    {
        let seconds = Self::prepare_request_timeout(timeout);
        if seconds == NO_TIMEOUT {
            None
        } else {
            Some(seconds as u64 * 1000)
        }
    }

    /// The timeout a textual setting gives: the integer it spells once
    /// surrounding whitespace is gone, else `0`.
    pub fn timeout_from_text(text: &str) -> (r: i32)
        ensures
            r == match i32_of_text(trimmed(text@)) {
                Some(v) => v,
                None => 0,
            },
    {
        match parse_i32(trim(text)) {
            Some(v) => v,
            None => 0,
        }
    }

    /// Assembles the transport request of a call: checks the URL, builds the
    /// headers, resolves the method and encodes the body, which a `GET`
    /// request never carries. Credentials are always same-origin.
    pub fn prepare_request(options: HttpRequestOptions) -> (r: Result<TransportRequest, Error>)
        ensures
            options.url@.len() == 0 ==> r matches Err(Error::ValidationError(_)),
            options.url@.len() > 0 && has_bad_header(caller_headers(options.headers)) ==> r matches Err(
                Error::InvalidHeaderValue(_),
            ),
            options.url@.len() > 0 && !has_bad_header(caller_headers(options.headers)) ==> if method_of(
                match options.method {
                    Some(m) => Some(m@),
                    None => None,
                },
            ) == Method::Get {
                r matches Ok(t) && t.body is None
            } else {
                match r {
                    Ok(t) => encoded(options.request_type, options.data, Ok(t.body)),
                    Err(e) => encoded(options.request_type, options.data, Err(e)),
                }
            },
            r matches Ok(t) ==> {
                &&& t.url == options.url
                &&& t.method == method_of(
                    match options.method {
                        Some(m) => Some(m@),
                        None => None,
                    },
                )
                &&& view_headers(t.headers@) == outbound_headers(
                    options.request_type,
                    caller_headers(options.headers),
                )
                &&& t.credentials == Credentials::SameOrigin
                &&& match deadline_of(options.timeout) {
                    Some(ms) => t.deadline_ms == Some(ms as u64),
                    None => t.deadline_ms is None,
                }
            },
    {
        let HttpRequestOptions { url, method, data, headers, timeout, request_type, response_type: _ } =
            options;
        if url.unicode_len() == 0 {
            return Err(Error::ValidationError("`url` is empty !".to_owned()));
        }
        let caller = match headers {
            Some(h) => h,
            None => Vec::new(),
        };
        assert(view_headers(caller@) == caller_headers(options.headers));
        let built = prepare_headers(request_type, &caller);
        let header_set = match built {
            Ok(hs) => hs,
            Err(e) => {
                return Err(e);
            },
        };
        let resolved = Method::resolve(&method);
        let body = if resolved == Method::Get {
            None
        } else {
            match encode_body(request_type, data) {
                Ok(b) => b,
                Err(e) => {
                    return Err(e);
                },
            }
        };
        Ok(
            TransportRequest {
                url,
                method: resolved,
                headers: header_set,
                body,
                credentials: Credentials::SameOrigin,
                deadline_ms: Self::deadline_millis(timeout),
            },
        )
    }

    /// Builds the envelope of a completed exchange: the status as it is, the
    /// headers with the last value of each name, and the decoded body after
    /// the numeric-safety pass. A body that should hold JSON and does not
    /// gives a null body and a non-empty error.
    pub fn prepare_response(
        status_code: u16,
        raw_headers: Vec<(String, String)>,
        method: Method,
        body: ResponseBody,
    ) -> (r: HttpResponseOptions)
        ensures
            r.status_code == status_code,
            view_headers(r.headers@) == response_headers(view_headers(raw_headers@)),
            match decoded(method, body) {
                Some(j) => r.body.model() == make_safe(j) && r.error@.len() == 0,
                None => r.body.model() == Json::Null && r.error@ == missing_body_message(),
            },
    {
        let headers = prepare_response_headers(raw_headers);
        match decode_body(method, body) {
            Ok(v) => HttpResponseOptions {
                status_code,
                headers,
                body: convert_numbers(v),
                error: String::new(),
            },
            Err(_) => HttpResponseOptions {
                status_code,
                headers,
                body: JsonValue::Null,
                error: "missing response body in HTTP call".to_owned(),
            },
        }
    }
}

/// A structured value whose numbers are all safe comes back unchanged: a
/// JSON request body is handed to the transport as that value, and the same
/// value read back from a `GET` or `POST` response decodes to it.
pub proof fn lemma_json_round_trip(
    v: JsonValue,
    kind: Option<HttpRequestType>,
    method: Method,
    sent: Result<Option<OutboundBody>, Error>,
)
    requires
        takes_json(kind),
        reads_json(method),
        all_numbers_safe(v.model()),
        encoded(kind, HttpBody::Json(v), sent),
    ensures
        sent == Ok::<Option<OutboundBody>, Error>(Some(OutboundBody::Json(v))),
        decoded(method, ResponseBody::Text(Some(v))) == Some(v.model()),
        make_safe(v.model()) == v.model(),
{
    lemma_safe_value_unchanged(v.model());
}

} // verus!
