//! Header sets: building the outbound headers of a call and collecting the
//! headers of a response.
use vstd::prelude::*;
use vstd::string::StrSliceExecFns;

use crate::error::Error;
use crate::kind::{mime_of, same_text, HttpRequestType};
use crate::text::{lemma_same_name_equivalence, names_equal, same_name};

verus! {

/// A header as a name and a value.
pub type HeaderModel = (Seq<char>, Seq<char>);

/// The model of a list of headers.
pub open spec fn view_headers(hs: Seq<(String, String)>) -> Seq<HeaderModel> {
    hs.map_values(|h: (String, String)| (h.0@, h.1@))
}

/// Two header names are the same: without regard to ASCII case when
/// `fold` holds, else exactly.
pub open spec fn names_match(a: Seq<char>, b: Seq<char>, fold: bool) -> bool {
    if fold {
        same_name(a, b)
    } else {
        a == b
    }
}

/// Index of the last header with the given name, or -1 when there is none.
pub open spec fn last_index(hs: Seq<HeaderModel>, name: Seq<char>, fold: bool) -> int
    decreases hs.len(),
{
    if hs.len() == 0 {
        -1
    } else if names_match(hs.last().0, name, fold) {
        hs.len() - 1
    } else {
        last_index(hs.drop_last(), name, fold)
    }
}

/// The value of the last header with the given name.
pub open spec fn header_value(hs: Seq<HeaderModel>, name: Seq<char>, fold: bool) -> Option<
    Seq<char>,
> {
    let i = last_index(hs, name, fold);
    if i >= 0 {
        Some(hs[i].1)
    } else {
        None
    }
}

/// Sets a header: it replaces the header of the same name, or is added at
/// the end when there is none.
pub open spec fn overlay(hs: Seq<HeaderModel>, h: HeaderModel, fold: bool) -> Seq<HeaderModel> {
    let j = last_index(hs, h.0, fold);
    if j >= 0 {
        hs.update(j, h)
    } else {
        hs.push(h)
    }
}

/// Sets each header of `hs2` in turn on `hs`.
pub open spec fn overlay_all(hs: Seq<HeaderModel>, hs2: Seq<HeaderModel>, fold: bool) -> Seq<
    HeaderModel,
>
    decreases hs2.len(),
{
    if hs2.len() == 0 {
        hs
    } else {
        overlay(overlay_all(hs, hs2.drop_last(), fold), hs2.last(), fold)
    }
}

/// The name of the content-type header.
pub open spec fn content_type_name() -> Seq<char> {
    "content-type"@
}

/// The headers a declared kind puts in place before the caller's.
pub open spec fn seed_headers(kind: Option<HttpRequestType>) -> Seq<HeaderModel> {
    match kind {
        Some(k) => seq![(content_type_name(), mime_of(k))],
        None => seq![],
    }
}

/// The outbound headers: the kind's content type, then each caller header,
/// which replaces a header of the same name without regard to case.
pub open spec fn outbound_headers(kind: Option<HttpRequestType>, caller: Seq<HeaderModel>) -> Seq<
    HeaderModel,
> {
    overlay_all(seed_headers(kind), caller, true)
}

/// The headers of a response: each in turn, a later one replacing an earlier
/// one of the same name.
pub open spec fn response_headers(raw: Seq<HeaderModel>) -> Seq<HeaderModel> {
    overlay_all(seq![], raw, false)
}

/// A character that may stand in a header name.
pub open spec fn is_token_char(c: char) -> bool {
    ('a' <= c <= 'z') || ('A' <= c <= 'Z') || ('0' <= c <= '9') || c == '!' || c == '#' || c
        == '$' || c == '%' || c == '&' || c == '\'' || c == '*' || c == '+' || c == '-' || c == '.'
        || c == '^' || c == '_' || c == '`' || c == '|' || c == '~'
}

/// A header name that can be sent: one or more token characters.
pub open spec fn valid_name(s: Seq<char>) -> bool {
    s.len() > 0 && forall|i: int| 0 <= i < s.len() ==> is_token_char(#[trigger] s[i])
}

/// A header value that can be sent: no NUL, carriage return or line feed.
pub open spec fn valid_value(s: Seq<char>) -> bool {
    forall|i: int| 0 <= i < s.len() ==> #[trigger] s[i] != '\0' && s[i] != '\r' && s[i] != '\n'
}

/// A header that can be sent.
pub open spec fn header_ok(h: HeaderModel) -> bool {
    valid_name(h.0) && valid_value(h.1)
}

/// The set of names that match is an equivalence class.
proof fn lemma_names_match_equivalence(a: Seq<char>, b: Seq<char>, c: Seq<char>, fold: bool)
    ensures
        names_match(a, a, fold),
        names_match(a, b, fold) ==> names_match(b, a, fold),
        names_match(a, b, fold) && names_match(b, c, fold) ==> names_match(a, c, fold),
{
    lemma_same_name_equivalence(a, b, c);
}

/// What `last_index` finds: a matching header after which none matches.
proof fn lemma_last_index(hs: Seq<HeaderModel>, name: Seq<char>, fold: bool)
    ensures
        -1 <= last_index(hs, name, fold) < hs.len(),
        last_index(hs, name, fold) >= 0 ==> names_match(
            hs[last_index(hs, name, fold)].0,
            name,
            fold,
        ),
        forall|k: int|
            last_index(hs, name, fold) < k < hs.len() ==> !names_match(#[trigger] hs[k].0, name, fold),
    decreases hs.len(),
{
    if hs.len() > 0 && !names_match(hs.last().0, name, fold) {
        lemma_last_index(hs.drop_last(), name, fold);
        assert forall|k: int| last_index(hs, name, fold) < k < hs.len() implies !names_match(
            #[trigger] hs[k].0,
            name,
            fold,
        ) by {
            if k < hs.len() - 1 {
                assert(hs[k] == hs.drop_last()[k]);
            }
        }
    }
}

/// Two lists in which the same positions match a name find it at the same
/// place.
proof fn lemma_last_index_same_pattern(
    a: Seq<HeaderModel>,
    b: Seq<HeaderModel>,
    name: Seq<char>,
    fold: bool,
)
    requires
        a.len() == b.len(),
        forall|k: int|
            0 <= k < a.len() ==> names_match(#[trigger] a[k].0, name, fold) == names_match(
                b[k].0,
                name,
                fold,
            ),
    ensures
        last_index(a, name, fold) == last_index(b, name, fold),
    decreases a.len(),
{
    if a.len() > 0 {
        assert(a.last() == a[a.len() - 1]);
        assert(b.last() == b[b.len() - 1]);
        assert forall|k: int| 0 <= k < a.drop_last().len() implies names_match(
            #[trigger] a.drop_last()[k].0,
            name,
            fold,
        ) == names_match(b.drop_last()[k].0, name, fold) by {
            assert(a.drop_last()[k] == a[k]);
            assert(b.drop_last()[k] == b[k]);
        }
        lemma_last_index_same_pattern(a.drop_last(), b.drop_last(), name, fold);
    }
}

/// A matching header after which none matches is the one `last_index` finds.
proof fn lemma_last_index_unique(hs: Seq<HeaderModel>, name: Seq<char>, fold: bool, j: int)
    requires
        0 <= j < hs.len(),
        names_match(hs[j].0, name, fold),
        forall|k: int| j < k < hs.len() ==> !names_match(#[trigger] hs[k].0, name, fold),
    ensures
        last_index(hs, name, fold) == j,
    decreases hs.len(),
{
    if j < hs.len() - 1 {
        assert(!names_match(hs[hs.len() - 1].0, name, fold));
        assert forall|k: int| j < k < hs.drop_last().len() implies !names_match(
            #[trigger] hs.drop_last()[k].0,
            name,
            fold,
        ) by {
            assert(hs.drop_last()[k] == hs[k]);
        }
        lemma_last_index_unique(hs.drop_last(), name, fold, j);
    }
}

/// After a header is set, looking up a name gives that header's value when
/// the names match, and what it gave before otherwise.
pub proof fn lemma_lookup_after_overlay(
    hs: Seq<HeaderModel>,
    h: HeaderModel,
    name: Seq<char>,
    fold: bool,
)
    ensures
        header_value(overlay(hs, h, fold), name, fold) == if names_match(h.0, name, fold) {
            Some(h.1)
        } else {
            header_value(hs, name, fold)
        },
{
    let j = last_index(hs, h.0, fold);
    let hs2 = overlay(hs, h, fold);
    lemma_last_index(hs, h.0, fold);
    lemma_last_index(hs, name, fold);
    if j >= 0 {
        lemma_names_match_equivalence(hs[j].0, h.0, name, fold);
        lemma_names_match_equivalence(h.0, name, hs[j].0, fold);
        if names_match(h.0, name, fold) {
            assert forall|k: int| j < k < hs2.len() implies !names_match(
                #[trigger] hs2[k].0,
                name,
                fold,
            ) by {
                lemma_names_match_equivalence(hs[k].0, name, h.0, fold);
                lemma_names_match_equivalence(name, h.0, hs[k].0, fold);
                lemma_names_match_equivalence(h.0, name, h.0, fold);
            }
            lemma_last_index_unique(hs2, name, fold, j);
        } else {
            assert(!names_match(hs[j].0, name, fold));
            assert forall|k: int| 0 <= k < hs.len() implies names_match(
                #[trigger] hs[k].0,
                name,
                fold,
            ) == names_match(hs2[k].0, name, fold) by {}
            lemma_last_index_same_pattern(hs, hs2, name, fold);
        }
    } else {
        assert(hs2.drop_last() =~= hs);
        assert(hs2.last() == h);
    }
}

/// Looking a name up after setting a list of headers gives the value of the
/// last header of the list with that name, or what it gave before when the
/// list has none.
pub proof fn lemma_lookup_after_overlay_all(
    hs: Seq<HeaderModel>,
    list: Seq<HeaderModel>,
    name: Seq<char>,
    fold: bool,
)
    ensures
        header_value(overlay_all(hs, list, fold), name, fold) == if last_index(list, name, fold)
            >= 0 {
            Some(list[last_index(list, name, fold)].1)
        } else {
            header_value(hs, name, fold)
        },
    decreases list.len(),
{
    if list.len() > 0 {
        let front = list.drop_last();
        lemma_lookup_after_overlay_all(hs, front, name, fold);
        lemma_lookup_after_overlay(overlay_all(hs, front, fold), list.last(), name, fold);
        if !names_match(list.last().0, name, fold) {
            let i = last_index(front, name, fold);
            lemma_last_index(front, name, fold);
            if i >= 0 {
                assert(front[i] == list[i]);
            }
        }
    }
}

/// The outbound content type is the declared kind's MIME string unless a
/// caller header sets it: then it is the value of the last such header.
pub proof fn lemma_content_type(kind: HttpRequestType, caller: Seq<HeaderModel>)
    ensures
        last_index(caller, content_type_name(), true) < 0 ==> header_value(
            outbound_headers(Some(kind), caller),
            content_type_name(),
            true,
        ) == Some(mime_of(kind)),
        last_index(caller, content_type_name(), true) >= 0 ==> header_value(
            outbound_headers(Some(kind), caller),
            content_type_name(),
            true,
        ) == Some(caller[last_index(caller, content_type_name(), true)].1),
{
    let ct = content_type_name();
    lemma_lookup_after_overlay_all(seed_headers(Some(kind)), caller, ct, true);
    lemma_names_match_equivalence(ct, ct, ct, true);
    assert(last_index(seed_headers(Some(kind)), ct, true) == 0);
}

/// Each name of a response keeps the value of the last header that carried
/// it, and a name that no header carried finds nothing.
pub proof fn lemma_response_last_write_wins(raw: Seq<HeaderModel>, name: Seq<char>)
    ensures
        header_value(response_headers(raw), name, false) == header_value(raw, name, false),
{
    lemma_lookup_after_overlay_all(seq![], raw, name, false);
}

/// Whether `c` may stand in a header name.
pub fn token_char(c: char) -> (r: bool)
    ensures
        r == is_token_char(c),
{
    ('a' <= c && c <= 'z') || ('A' <= c && c <= 'Z') || ('0' <= c && c <= '9') || c == '!' || c
        == '#' || c == '$' || c == '%' || c == '&' || c == '\'' || c == '*' || c == '+' || c == '-'
        || c == '.' || c == '^' || c == '_' || c == '`' || c == '|' || c == '~'
}

/// Whether a header name can be sent.
pub fn is_valid_name(name: &str) -> (r: bool)
    ensures
        r == valid_name(name@),
{
    let n = name.unicode_len();
    if n == 0 {
        return false;
    }
    let mut i: usize = 0;
    while i < n
        invariant
            n == name@.len(),
            i <= n,
            forall|k: int| 0 <= k < i ==> is_token_char(#[trigger] name@[k]),
        decreases n - i,
    {
        if !token_char(name.get_char(i)) {
            return false;
        }
        i = i + 1;
    }
    true
}

/// Whether a header value can be sent.
pub fn is_valid_value(value: &str) -> (r: bool)
    ensures
        r == valid_value(value@),
{
    let n = value.unicode_len();
    let mut i: usize = 0;
    while i < n
        invariant
            n == value@.len(),
            i <= n,
            forall|k: int| 0 <= k < i ==> #[trigger] value@[k] != '\0' && value@[k] != '\r' && value@[k] != '\n',
        decreases n - i,
    {
        let c = value.get_char(i);
        if c == '\0' || c == '\r' || c == '\n' {
            return false;
        }
        i = i + 1;
    }
    true
}

/// Whether two header names match: without regard to ASCII case when `fold`
/// holds, else exactly.
fn match_names(a: &str, b: &str, fold: bool) -> (r: bool)
    ensures
        r == names_match(a@, b@, fold),
{
    if fold {
        names_equal(a, b)
    } else {
        same_text(a, b)
    }
}

/// The position of the last header with the given name.
pub fn find_header(hs: &Vec<(String, String)>, name: &str, fold: bool) -> (r: Option<usize>)
    ensures
        match r {
            Some(i) => i as int == last_index(view_headers(hs@), name@, fold),
            None => last_index(view_headers(hs@), name@, fold) == -1,
        },
{
    let ghost m = view_headers(hs@);
    let mut found: Option<usize> = None;
    let mut i: usize = 0;
    while i < hs.len()
        invariant
            m == view_headers(hs@),
            i <= hs.len(),
            match found {
                Some(k) => k as int == last_index(m.take(i as int), name@, fold),
                None => last_index(m.take(i as int), name@, fold) == -1,
            },
        decreases hs.len() - i,
    {
        assert(m.take(i + 1).drop_last() =~= m.take(i as int));
        if match_names(hs[i].0.as_str(), name, fold) {
            found = Some(i);
        }
        i = i + 1;
    }
    assert(m.take(i as int) =~= m);
    found
}

/// Sets a header: it replaces the last header of the same name, or is added
/// at the end when there is none.
pub fn set_header(hs: &mut Vec<(String, String)>, name: String, value: String, fold: bool)
    ensures
        view_headers(final(hs)@) == overlay(view_headers(old(hs)@), (name@, value@), fold),
{
    let ghost h = (name@, value@);
    proof {
        lemma_last_index(view_headers(hs@), name@, fold);
    }
    match find_header(hs, name.as_str(), fold) {
        Some(i) => {
            hs.set(i, (name, value));
            assert(view_headers(hs@) =~= overlay(view_headers(old(hs)@), h, fold));
        },
        None => {
            hs.push((name, value));
            assert(view_headers(hs@) =~= overlay(view_headers(old(hs)@), h, fold));
        },
    }
}

/// Builds the outbound headers of a call: the declared kind's content type,
/// then each caller header, which replaces a header of the same name without
/// regard to case. Fails on the first caller header that cannot be sent.
pub fn prepare_headers(kind: Option<HttpRequestType>, caller: &Vec<(String, String)>) -> (r: Result<
    Vec<(String, String)>,
    Error,
>)
    ensures
        r is Err <==> exists|i: int| 0 <= i < caller.len() && !header_ok(#[trigger] view_headers(caller@)[i]),
        r matches Err(e) ==> exists|i: int|
            0 <= i < caller.len() && !header_ok(#[trigger] view_headers(caller@)[i]) && (e matches Error::InvalidHeaderValue(n) && n@ == caller@[i].0@),
        r matches Ok(hs) ==> view_headers(hs@) == outbound_headers(kind, view_headers(caller@)),
{
    let ghost cm = view_headers(caller@);
    let mut i: usize = 0;
    while i < caller.len()
        invariant
            cm == view_headers(caller@),
            i <= caller.len(),
            forall|k: int| 0 <= k < i ==> header_ok(#[trigger] cm[k]),
        decreases caller.len() - i,
    {
        if !is_valid_name(caller[i].0.as_str()) || !is_valid_value(caller[i].1.as_str()) {
            assert(!header_ok(cm[i as int]));
            return Err(Error::InvalidHeaderValue(caller[i].0.clone()));
        }
        i = i + 1;
    }
    let mut hs: Vec<(String, String)> = Vec::new();
    match kind {
        Some(k) => {
            let name = "content-type".to_owned();
            hs.push((name, k.get_content_type()));
        },
        None => {},
    }
    assert(view_headers(hs@) =~= seed_headers(kind));
    let mut j: usize = 0;
    while j < caller.len()
        invariant
            cm == view_headers(caller@),
            j <= caller.len(),
            view_headers(hs@) == overlay_all(seed_headers(kind), cm.take(j as int), true),
        decreases caller.len() - j,
    {
        assert(cm.take(j + 1).drop_last() =~= cm.take(j as int));
        let name = caller[j].0.clone();
        let value = caller[j].1.clone();
        set_header(&mut hs, name, value, true);
        j = j + 1;
    }
    assert(cm.take(j as int) =~= cm);
    Ok(hs)
}

/// Collects the headers of a response: each in turn, a later one replacing
/// an earlier one of exactly the same name.
pub fn prepare_response_headers(raw: Vec<(String, String)>) -> (r: Vec<(String, String)>)
    ensures
        view_headers(r@) == response_headers(view_headers(raw@)),
{
    let ghost rm = view_headers(raw@);
    let mut rest = raw;
    let mut hs: Vec<(String, String)> = Vec::new();
    let n = rest.len();
    let mut j: usize = 0;
    assert(rm.take(0) =~= seq![]);
    while rest.len() > 0
        invariant
            n == rm.len(),
            j + rest.len() == n,
            view_headers(rest@) == rm.subrange(j as int, n as int),
            view_headers(hs@) == overlay_all(seq![], rm.take(j as int), false),
        decreases rest.len(),
    {
        assert(rm.take(j + 1).drop_last() =~= rm.take(j as int));
        assert(view_headers(rest@)[0] == rm[j as int]);
        let ghost before = rest@;
        let (name, value) = rest.remove(0);
        assert forall|k: int| 0 <= k < rest.len() implies #[trigger] view_headers(rest@)[k] == rm[j
            + 1 + k] by {
            assert(rest@[k] == before[k + 1]);
            assert(view_headers(before)[k + 1] == rm[j + 1 + k]);
        }
        assert(view_headers(rest@) =~= rm.subrange(j + 1, n as int));
        set_header(&mut hs, name, value, false);
        j = j + 1;
    }
    assert(rm.take(j as int) =~= rm);
    hs
}

} // verus!
