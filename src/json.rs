//! A JSON value held as plain data, and the numeric-safety pass over it.
use vstd::prelude::*;

use crate::text::{decimal_text, i64_text, u64_text};

verus! {

/// Largest integer magnitude that survives a trip through an IEEE-754 double.
pub const MAX_SAFE_INTEGER: u64 = 9007199254740991;

/// The most negative integer that survives a trip through a double.
pub const MIN_SAFE_INTEGER: i64 = -9007199254740991;

/// Bit pattern of `9007199254740991.0` with the sign bit cleared.
pub const MAX_SAFE_FLOAT_BITS: u64 = 0x433F_FFFF_FFFF_FFFF;

/// A JSON number as the parser produced it.
#[derive(Debug, PartialEq)]
pub enum JsonNumber {
    /// A non-negative integer.
    PosInt(u64),
    /// A negative integer.
    NegInt(i64),
    /// A floating-point number: its IEEE-754 bit pattern and its JSON text.
    Float { bits: u64, text: String },
}

/// A dynamically typed JSON value. Object entries keep their order.
#[derive(Debug, PartialEq)]
pub enum JsonValue {
    Null,
    Bool(bool),
    Number(JsonNumber),
    String(String),
    Array(Vec<JsonValue>),
    Object(Vec<(String, JsonValue)>),
}

/// Mathematical model of a JSON number.
pub enum NumberModel {
    Int(int),
    Float { bits: nat, text: Seq<char> },
}

/// Mathematical model of a JSON value.
pub enum Json {
    Null,
    Bool(bool),
    Num(NumberModel),
    Str(Seq<char>),
    Arr(Seq<Json>),
    Obj(Seq<(Seq<char>, Json)>),
}

impl JsonNumber {
    pub open spec fn model(&self) -> NumberModel {
        match self {
            JsonNumber::PosInt(n) => NumberModel::Int(*n as int),
            JsonNumber::NegInt(n) => NumberModel::Int(*n as int),
            JsonNumber::Float { bits, text } => NumberModel::Float { bits: *bits as nat, text: text@ },
        }
    }
}

impl JsonValue {
    pub open spec fn model(&self) -> Json
        decreases self,
    {
        match self {
            JsonValue::Null => Json::Null,
            JsonValue::Bool(b) => Json::Bool(*b),
            JsonValue::Number(n) => Json::Num(n.model()),
            JsonValue::String(s) => Json::Str(s@),
            JsonValue::Array(a) => Json::Arr(
                Seq::new(
                    a.len() as nat,
                    |i: int|
                        if 0 <= i < a.len() {
                            a@[i].model()
                        } else {
                            Json::Null
                        },
                ),
            ),
            JsonValue::Object(o) => Json::Obj(
                Seq::new(
                    o.len() as nat,
                    |i: int|
                        if 0 <= i < o.len() {
                            (o@[i].0@, o@[i].1.model())
                        } else {
                            (Seq::empty(), Json::Null)
                        },
                ),
            ),
        }
    }
}

/// A number loses precision as a double: it is infinite, not a number, or
/// larger in magnitude than `MAX_SAFE_INTEGER`. For an integer the double
/// rounds to a value above the bound exactly when the integer is above it;
/// for a float the order of magnitudes is the order of the bit patterns with
/// the sign bit cleared.
pub open spec fn number_is_unsafe(n: NumberModel) -> bool {
    match n {
        NumberModel::Int(v) => v > MAX_SAFE_INTEGER || v < MIN_SAFE_INTEGER,
        NumberModel::Float { bits, text } => bits % 0x8000_0000_0000_0000 > MAX_SAFE_FLOAT_BITS,
    }
}

/// The decimal text of a number: what an unsafe number becomes.
pub open spec fn number_text(n: NumberModel) -> Seq<char> {
    match n {
        NumberModel::Int(v) => decimal_text(v),
        NumberModel::Float { bits, text } => text,
    }
}

/// The numeric-safety pass: every unsafe number becomes its decimal text,
/// arrays and objects are walked, all else is kept.
pub open spec fn make_safe(j: Json) -> Json
    decreases j,
{
    match j {
        Json::Num(n) => if number_is_unsafe(n) {
            Json::Str(number_text(n))
        } else {
            j
        },
        Json::Arr(s) => Json::Arr(
            Seq::new(
                s.len(),
                |i: int|
                    if 0 <= i < s.len() {
                        make_safe(s[i])
                    } else {
                        Json::Null
                    },
            ),
        ),
        Json::Obj(s) => Json::Obj(
            Seq::new(
                s.len(),
                |i: int|
                    if 0 <= i < s.len() {
                        (s[i].0, make_safe(s[i].1))
                    } else {
                        (Seq::empty(), Json::Null)
                    },
            ),
        ),
        _ => j,
    }
}

/// Every number inside the value is safe.
pub open spec fn all_numbers_safe(j: Json) -> bool
    decreases j,
{
    match j {
        Json::Num(n) => !number_is_unsafe(n),
        Json::Arr(s) => forall|i: int| 0 <= i < s.len() ==> all_numbers_safe(#[trigger] s[i]),
        Json::Obj(s) => forall|i: int| 0 <= i < s.len() ==> all_numbers_safe(#[trigger] s[i].1),
        _ => true,
    }
}

impl JsonNumber {
    /// Whether this number loses precision as a double.
    pub fn is_unsafe(&self) -> (r: bool)
        ensures
            r == number_is_unsafe(self.model()),
    {
        match self {
            JsonNumber::PosInt(n) => *n > MAX_SAFE_INTEGER,
            JsonNumber::NegInt(n) => *n < MIN_SAFE_INTEGER || *n > MAX_SAFE_INTEGER as i64,
            JsonNumber::Float { bits, .. } => *bits % 0x8000_0000_0000_0000 > MAX_SAFE_FLOAT_BITS,
        }
    }

    /// The decimal text of this number.
    pub fn to_text(&self) -> (r: String)
        ensures
            r@ == number_text(self.model()),
    {
        match self {
            JsonNumber::PosInt(n) => u64_text(*n),
            JsonNumber::NegInt(n) => i64_text(*n),
            JsonNumber::Float { text, .. } => text.clone(),
        }
    }
}

/// Replaces every number that would lose precision as a double by its
/// decimal text, walking arrays and objects.
pub fn convert_numbers(value: JsonValue) -> (r: JsonValue)
    ensures
        r.model() == make_safe(value.model()),
    decreases value,
{
    match value {
        JsonValue::Number(n) => {
            if n.is_unsafe() {
                JsonValue::String(n.to_text())
            } else {
                JsonValue::Number(n)
            }
        },
        JsonValue::Array(items) => {
            let ghost orig = items;
            let mut rest = items;
            let mut out: Vec<JsonValue> = Vec::new();
            let n = rest.len();
            while rest.len() > 0
                invariant
                    value == JsonValue::Array(orig),
                    rest@ == orig@.subrange(out.len() as int, n as int),
                    out.len() <= n == orig.len(),
                    forall|k: int|
                        0 <= k < out.len() ==> #[trigger] out@[k].model() == make_safe(
                            orig@[k].model(),
                        ),
                decreases rest.len(),
            {
                let ghost k = out.len() as int;
                let item = rest.remove(0);
                proof {
                    assert(item == orig@[k]);
                    assert(orig == value->Array_0);
                    assert(decreases_to!(value => value->Array_0));
                    assert(decreases_to!(orig => orig@[k]));
                    assert(decreases_to!(value => item));
                }
                let conv = convert_numbers(item);
                out.push(conv);
            }
            let r = JsonValue::Array(out);
            proof {
                let ghost src = JsonValue::Array(orig).model();
                assert(out.len() == orig.len());
                assert forall|i: int| 0 <= i < out.len() implies r.model()->Arr_0[i] == make_safe(
                    src,
                )->Arr_0[i] by {
                    assert(src->Arr_0[i] == orig@[i].model());
                    assert(out@[i].model() == make_safe(orig@[i].model()));
                }
                assert(r.model()->Arr_0 =~= make_safe(src)->Arr_0);
            }
            r
        },
        JsonValue::Object(entries) => {
            let ghost orig = entries;
            let mut rest = entries;
            let mut out: Vec<(String, JsonValue)> = Vec::new();
            let n = rest.len();
            while rest.len() > 0
                invariant
                    value == JsonValue::Object(orig),
                    rest@ == orig@.subrange(out.len() as int, n as int),
                    out.len() <= n == orig.len(),
                    forall|k: int|
                        0 <= k < out.len() ==> #[trigger] out@[k].0@ == orig@[k].0@ && out@[k].1.model()
                            == make_safe(orig@[k].1.model()),
                decreases rest.len(),
            {
                let ghost k = out.len() as int;
                let (key, item) = rest.remove(0);
                proof {
                    assert(item == orig@[k].1);
                    assert(orig == value->Object_0);
                    assert(decreases_to!(value => value->Object_0));
                    assert(decreases_to!(orig => orig@[k]));
                    assert(decreases_to!(orig@[k] => orig@[k].1));
                    assert(decreases_to!(value => item));
                }
                let conv = convert_numbers(item);
                out.push((key, conv));
            }
            let r = JsonValue::Object(out);
            proof {
                let ghost src = JsonValue::Object(orig).model();
                assert(r.model()->Obj_0 =~= make_safe(src)->Obj_0);
            }
            r
        },
        other => other,
    }
}

/// The numeric-safety pass leaves no unsafe number behind.
pub proof fn lemma_make_safe_is_safe(j: Json)
    ensures
        all_numbers_safe(make_safe(j)),
    decreases j,
{
    match j {
        Json::Arr(s) => {
            assert forall|i: int| 0 <= i < s.len() implies all_numbers_safe(
                #[trigger] make_safe(j)->Arr_0[i],
            ) by {
                lemma_make_safe_is_safe(s[i]);
            }
        },
        Json::Obj(s) => {
            assert forall|i: int| 0 <= i < s.len() implies all_numbers_safe(
                #[trigger] make_safe(j)->Obj_0[i].1,
            ) by {
                lemma_make_safe_is_safe(s[i].1);
            }
        },
        _ => {},
    }
}

/// A value whose numbers are all safe goes through the numeric-safety pass
/// unchanged.
pub proof fn lemma_safe_value_unchanged(j: Json)
    requires
        all_numbers_safe(j),
    ensures
        make_safe(j) == j,
    decreases j,
{
    match j {
        Json::Arr(s) => {
            assert forall|i: int| 0 <= i < s.len() implies #[trigger] make_safe(j)->Arr_0[i]
                == s[i] by {
                lemma_safe_value_unchanged(s[i]);
            }
            assert(make_safe(j)->Arr_0 =~= s);
        },
        Json::Obj(s) => {
            assert forall|i: int| 0 <= i < s.len() implies #[trigger] make_safe(j)->Obj_0[i]
                == s[i] by {
                lemma_safe_value_unchanged(s[i].1);
            }
            assert(make_safe(j)->Obj_0 =~= s);
        },
        _ => {},
    }
}

/// Running the numeric-safety pass again on its own output changes nothing.
pub proof fn lemma_convert_numbers_idempotent(value: JsonValue)
    ensures
        make_safe(make_safe(value.model())) == make_safe(value.model()),
{
    lemma_make_safe_is_safe(value.model());
    lemma_safe_value_unchanged(make_safe(value.model()));
}

} // verus!
