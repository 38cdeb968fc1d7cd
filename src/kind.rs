//! Content kinds and request methods.
use vstd::prelude::*;
use vstd::string::StrSliceExecFns;

use crate::text::{lowercase, lowered};

verus! {

/// The encoding of a request or response body.
#[derive(Debug, Clone, Copy, PartialEq, Eq, Structural)]
pub enum HttpRequestType {
    Json,
    /// A URL-encoded form.
    FormSubmit,
    /// A multipart form.
    FormData,
    Blob,
    Text,
    Html,
}

/// The canonical MIME string of each kind.
pub open spec fn mime_of(kind: HttpRequestType) -> Seq<char> {
    match kind {
        HttpRequestType::Json => "application/json;charset=UTF-8"@,
        HttpRequestType::FormSubmit => "application/x-www-form-urlencoded"@,
        HttpRequestType::FormData => "multipart/form-data"@,
        HttpRequestType::Blob => "application/octet-stream"@,
        HttpRequestType::Text => "text/plain;charset=UTF-8"@,
        HttpRequestType::Html => "text/html;charset=UTF-8"@,
    }
}

/// The kind that an integer token names; an unknown token names `Json`.
pub open spec fn kind_of_code(code: int) -> HttpRequestType {
    if code == 1 {
        HttpRequestType::FormSubmit
    } else if code == 2 {
        HttpRequestType::FormData
    } else if code == 3 {
        HttpRequestType::Blob
    } else if code == 4 {
        HttpRequestType::Text
    } else if code == 5 {
        HttpRequestType::Html
    } else {
        HttpRequestType::Json
    }
}

/// The value of a text of decimal digits.
pub open spec fn digits_value(s: Seq<char>) -> int
    decreases s.len(),
{
    if s.len() == 0 {
        0
    } else {
        digits_value(s.drop_last()) * 10 + ((s.last() as u32) - ('0' as u32))
    }
}

/// The text is one or more decimal digits.
pub open spec fn is_digits(s: Seq<char>) -> bool {
    s.len() > 0 && forall|i: int| 0 <= i < s.len() ==> '0' <= #[trigger] s[i] <= '9'
}

/// The `i32` that a text spells: an optional sign, then decimal digits, with
/// a value in range.
pub open spec fn i32_of_text(s: Seq<char>) -> Option<i32> {
    let negative = s.len() > 0 && s[0] == '-';
    let body = if s.len() > 0 && (s[0] == '-' || s[0] == '+') {
        s.drop_first()
    } else {
        s
    };
    let v = if negative {
        -digits_value(body)
    } else {
        digits_value(body)
    };
    if is_digits(body) && i32::MIN <= v <= i32::MAX {
        Some(v as i32)
    } else {
        None
    }
}

/// Relies on `str::parse::<i32>`: an optional `+` or `-`, then decimal
/// digits, whose value fits; anything else is an error.
#[verifier::external_body]
pub(crate) fn parse_i32(s: &str) -> (r: Option<i32>)
    ensures
        r == i32_of_text(s@),
{
    s.parse::<i32>().ok()
}

impl HttpRequestType {
    /// The canonical MIME string of this kind.
    pub fn get_content_type(&self) -> (r: String)
        ensures
            r@ == mime_of(*self),
    {
        match self {
            HttpRequestType::Json => "application/json;charset=UTF-8".to_owned(),
            HttpRequestType::FormSubmit => "application/x-www-form-urlencoded".to_owned(),
            HttpRequestType::FormData => "multipart/form-data".to_owned(),
            HttpRequestType::Blob => "application/octet-stream".to_owned(),
            HttpRequestType::Text => "text/plain;charset=UTF-8".to_owned(),
            HttpRequestType::Html => "text/html;charset=UTF-8".to_owned(),
        }
    }

    /// The kind that an integer token names; an unknown token names `Json`.
    pub fn get_type(data: i32) -> (r: HttpRequestType)
        ensures
            r == kind_of_code(data as int),
    {
        match data {
            1 => HttpRequestType::FormSubmit,
            2 => HttpRequestType::FormData,
            3 => HttpRequestType::Blob,
            4 => HttpRequestType::Text,
            5 => HttpRequestType::Html,
            _ => HttpRequestType::Json,
        }
    }

    /// The kind that a textual token names: the integer it spells, or `Json`
    /// when it spells none.
    pub fn from_token(token: &str) -> (r: HttpRequestType)
        ensures
            r == kind_of_code(
                match i32_of_text(token@) {
                    Some(v) => v as int,
                    None => 0,
                },
            ),
    {
        match parse_i32(token) {
            Some(v) => Self::get_type(v),
            None => HttpRequestType::Json,
        }
    }
}

/// Compares two texts character by character.
pub fn same_text(a: &str, b: &str) -> (r: bool)
    ensures
        r == (a@ == b@),
{
    let n = a.unicode_len();
    if n != b.unicode_len() {
        return false;
    }
    let mut i: usize = 0;
    while i < n
        invariant
            n == a@.len() == b@.len(),
            i <= n,
            forall|k: int| 0 <= k < i ==> a@[k] == b@[k],
        decreases n - i,
    {
        if a.get_char(i) != b.get_char(i) {
            return false;
        }
        i = i + 1;
    }
    assert(a@ =~= b@);
    true
}

/// The methods a call can use.
#[derive(Debug, Clone, Copy, PartialEq, Eq, Structural)]
pub enum Method {
    Get,
    Post,
    Put,
    Delete,
}

/// The method that a lowercase method name names; any other name is `Post`.
pub open spec fn method_of_lower(s: Seq<char>) -> Method {
    if s == "get"@ {
        Method::Get
    } else if s == "put"@ {
        Method::Put
    } else if s == "delete"@ {
        Method::Delete
    } else {
        Method::Post
    }
}

/// The method a call uses: `Post` when none is given, else the one its name
/// names without regard to case.
pub open spec fn method_of(method: Option<Seq<char>>) -> Method {
    match method {
        None => Method::Post,
        Some(m) => method_of_lower(lowered(m)),
    }
}

impl Method {
    /// The method that a lowercase name names; any other name is `Post`.
    pub fn from_lowercase(name: &str) -> (r: Method)
        ensures
            r == method_of_lower(name@),
    {
        if same_text(name, "get") {
            Method::Get
        } else if same_text(name, "put") {
            Method::Put
        } else if same_text(name, "delete") {
            Method::Delete
        } else {
            Method::Post
        }
    }

    /// The method a call uses: `Post` when none is given.
    pub fn resolve(method: &Option<String>) -> (r: Method)
        ensures
            r == method_of(
                match method {
                    Some(m) => Some(m@),
                    None => None,
                },
            ),
    {
        match method {
            None => Method::Post,
            Some(m) => {
                let lower = lowercase(m.as_str());
                Self::from_lowercase(lower.as_str())
            },
        }
    }

    /// The method's name on the wire.
    pub fn as_str(&self) -> (r: &'static str)
        ensures
            r@ == method_name(*self),
    {
        match self {
            Method::Get => "GET",
            Method::Post => "POST",
            Method::Put => "PUT",
            Method::Delete => "DELETE",
        }
    }
}

/// The method's name on the wire.
pub open spec fn method_name(m: Method) -> Seq<char> {
    match m {
        Method::Get => "GET"@,
        Method::Post => "POST"@,
        Method::Put => "PUT"@,
        Method::Delete => "DELETE"@,
    }
}

} // verus!
