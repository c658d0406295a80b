//! A JSON document as the library reads it.
//!
//! Canvas answers with JSON; the caller decodes the bytes and hands the library
//! the value in this form. Numbers keep the three shapes that a JSON decoder
//! tells apart: non-negative integers, negative integers, and everything else,
//! which is carried by the text the decoder would print for it.
use vstd::prelude::*;
use crate::text::{dec, dec_signed, i64_to_text, u64_to_text};

verus! {

/// A JSON number.
#[derive(Debug, Clone, PartialEq)]
pub enum JsonNumber {
    /// A non-negative integer.
    PosInt(u64),
    /// A negative integer.
    NegInt(i64),
    /// Any other number, as its printed text (for example `"2.5"`).
    Float(String),
}

/// A JSON value. Object members keep the order in which the decoder hands
/// them out (`serde_json` hands them out by name).
#[derive(Debug)]
pub enum JsonValue {
    Null,
    Bool(bool),
    Number(JsonNumber),
    String(String),
    Array(Vec<JsonValue>),
    Object(Vec<(String, JsonValue)>),
}

/// The text of a number, as `to_string` prints it.
pub open spec fn number_text(n: JsonNumber) -> Seq<char> {
    match n {
        JsonNumber::PosInt(u) => dec(u as nat),
        JsonNumber::NegInt(i) => dec_signed(i as int),
        JsonNumber::Float(t) => t@,
    }
}

/// The text of a number, as `to_string` prints it.
pub fn number_to_text(n: &JsonNumber) -> (s: String)
    ensures
        s@ == number_text(*n),
{
    match n {
        JsonNumber::PosInt(u) => u64_to_text(*u),
        JsonNumber::NegInt(i) => i64_to_text(*i),
        JsonNumber::Float(t) => t.clone(),
    }
}

/// The value of the first member of `entries` named `key`, if any.
pub open spec fn member(entries: Seq<(String, JsonValue)>, key: Seq<char>) -> Option<JsonValue>
    decreases entries.len(),
{
    if entries.len() == 0 {
        None
    } else if entries[0].0@ == key {
        Some(entries[0].1)
    } else {
        member(entries.subrange(1, entries.len() as int), key)
    }
}

/// What `value.get(key)` gives: the member named `key` of an object, `None` otherwise.
pub open spec fn get_member(v: JsonValue, key: Seq<char>) -> Option<JsonValue> {
    match v {
        JsonValue::Object(entries) => member(entries@, key),
        _ => None,
    }
}

/// The member named `key` of an object value; `None` for a missing member or a non-object.
pub fn get<'a>(v: &'a JsonValue, key: &str) -> (r: Option<&'a JsonValue>)
    ensures
        match r {
            Some(m) => get_member(*v, key@) == Some(*m),
            None => get_member(*v, key@) is None,
        },
{
    match v {
        JsonValue::Object(entries) => {
            let wanted = key.to_owned();
            let mut i: usize = 0;
            assert(entries@.subrange(0, entries@.len() as int) =~= entries@);
            while i < entries.len()
                invariant
                    i <= entries@.len(),
                    member(entries@, key@) == member(entries@.subrange(i as int, entries@.len() as int), key@),
                    wanted@ == key@,
                    get_member(*v, key@) == member(entries@, key@),
                decreases entries@.len() - i,
            {
                let ghost rest = entries@.subrange(i as int, entries@.len() as int);
                assert(rest.subrange(1, rest.len() as int) =~= entries@.subrange(i + 1, entries@.len() as int));
                assert(rest[0] == entries@[i as int]);
                if entries[i].0 == wanted {
                    return Some(&entries[i].1);
                }
                i = i + 1;
            }
            assert(entries@.subrange(i as int, entries@.len() as int).len() == 0);
            None
        },
        _ => None,
    }
}

/// `value[key]`: the member named `key`, or `Null` when there is none.
pub open spec fn index_member(v: JsonValue, key: Seq<char>) -> JsonValue {
    match get_member(v, key) {
        Some(m) => m,
        None => JsonValue::Null,
    }
}

/// `value[i]`: the element at `i` of an array, or `Null` when there is none.
pub open spec fn index_element(v: JsonValue, i: int) -> JsonValue {
    match v {
        JsonValue::Array(items) => if 0 <= i < items@.len() {
            items@[i]
        } else {
            JsonValue::Null
        },
        _ => JsonValue::Null,
    }
}

/// The element at `i` of an array value; `None` for a missing element or a non-array.
pub fn element<'a>(v: &'a JsonValue, i: usize) -> (r: Option<&'a JsonValue>)
    ensures
        match r {
            Some(m) => v is Array && i < v->Array_0@.len() && *m == v->Array_0@[i as int],
            None => !(v is Array && i < v->Array_0@.len()),
        },
{
    match v {
        JsonValue::Array(items) => if i < items.len() {
            Some(&items[i])
        } else {
            None
        },
        _ => None,
    }
}

/// `value.get(key).and_then(|v| v.as_u64())`: the member `key` when it is a
/// non-negative integer.
pub open spec fn u64_member_spec(v: JsonValue, key: Seq<char>) -> Option<u64> {
    match get_member(v, key) {
        Some(JsonValue::Number(JsonNumber::PosInt(n))) => Some(n),
        _ => None,
    }
}

/// The member `key` when it is a non-negative integer.
pub fn u64_member(v: &JsonValue, key: &str) -> (r: Option<u64>)
    ensures
        r == u64_member_spec(*v, key@),
{
    match get(v, key) {
        Some(JsonValue::Number(JsonNumber::PosInt(n))) => Some(*n),
        _ => None,
    }
}

/// The text of a string value (`value.as_str()`).
pub open spec fn as_text(v: JsonValue) -> Option<Seq<char>> {
    match v {
        JsonValue::String(s) => Some(s@),
        _ => None,
    }
}

/// `value.get(key).and_then(|v| v.as_bool()).unwrap_or(false)`: the member
/// `key` when it is a boolean, `false` otherwise.
pub open spec fn flag_spec(v: JsonValue, key: Seq<char>) -> bool {
    match get_member(v, key) {
        Some(JsonValue::Bool(b)) => b,
        _ => false,
    }
}

/// The member `key` when it is a boolean, `false` otherwise.
pub fn flag(v: &JsonValue, key: &str) -> (b: bool)
    ensures
        b == flag_spec(*v, key@),
{
    match get(v, key) {
        Some(JsonValue::Bool(b)) => *b,
        _ => false,
    }
}

/// The text of the member `key` when it is a string.
pub open spec fn text_member_spec(v: JsonValue, key: Seq<char>) -> Option<Seq<char>> {
    match get_member(v, key) {
        Some(m) => as_text(m),
        None => None,
    }
}

/// Whether the member `key` is the string `expected`.
pub fn text_member_is(v: &JsonValue, key: &str, expected: &str) -> (b: bool)
    ensures
        b == (text_member_spec(*v, key@) == Some(expected@)),
{
    match get(v, key) {
        Some(JsonValue::String(t)) => {
            let e = expected.to_owned();
            *t == e
        },
        _ => false,
    }
}

/// The elements of the member `key` when it is an array; none otherwise.
pub open spec fn array_member_spec(v: JsonValue, key: Seq<char>) -> Seq<JsonValue> {
    match get_member(v, key) {
        Some(JsonValue::Array(items)) => items@,
        _ => seq![],
    }
}

/// The elements of the member `key` when it is an array; none otherwise
/// (`value.get(key).and_then(|v| v.as_array())`, empty by default).
pub fn array_member<'a>(v: &'a JsonValue, key: &str) -> (r: &'a [JsonValue])
    ensures
        r@ == array_member_spec(*v, key@),
{
    match get(v, key) {
        Some(JsonValue::Array(items)) => items.as_slice(),
        _ => &[],
    }
}

/// `value[key][0]`: the first element of the array member `key`; `None` stands
/// for `null` (no such member, not an array, or an empty one).
pub open spec fn first_of_spec(v: JsonValue, key: Seq<char>) -> Option<JsonValue> {
    let items = array_member_spec(v, key);
    if items.len() > 0 {
        Some(items[0])
    } else {
        None
    }
}

/// The first element of the array member `key` (see [`first_of_spec`]).
pub fn first_of<'a>(v: &'a JsonValue, key: &str) -> (r: Option<&'a JsonValue>)
    ensures
        match r {
            Some(x) => first_of_spec(*v, key@) == Some(*x),
            None => first_of_spec(*v, key@) is None,
        },
{
    let items = array_member(v, key);
    if items.len() > 0 {
        Some(&items[0])
    } else {
        None
    }
}

/// The texts of the string elements of the array member `key`, in order; other
/// elements are skipped.
pub open spec fn texts_in_spec(items: Seq<JsonValue>) -> Seq<Seq<char>>
    decreases items.len(),
{
    if items.len() == 0 {
        seq![]
    } else {
        let rest = texts_in_spec(items.subrange(0, items.len() - 1));
        match items[items.len() - 1] {
            JsonValue::String(t) => rest.push(t@),
            _ => rest,
        }
    }
}

/// The texts of the string elements of the array member `key`, in order.
pub fn texts_of_member(v: &JsonValue, key: &str) -> (r: Vec<String>)
    ensures
        r@.map_values(|t: String| t@) == texts_in_spec(array_member_spec(*v, key@)),
{
    let items = array_member(v, key);
    let mut out: Vec<String> = Vec::new();
    let mut i: usize = 0;
    while i < items.len()
        invariant
            i <= items@.len(),
            out@.map_values(|t: String| t@) == texts_in_spec(items@.subrange(0, i as int)),
        decreases items@.len() - i,
    {
        let ghost prefix = items@.subrange(0, i + 1);
        assert(prefix.subrange(0, prefix.len() - 1) =~= items@.subrange(0, i as int));
        match &items[i] {
            JsonValue::String(t) => {
                let ghost before = out@;
                out.push(t.clone());
                assert(out@.map_values(|t: String| t@) =~= before.map_values(|t: String| t@).push(t@));
            },
            _ => {},
        }
        i = i + 1;
    }
    assert(items@.subrange(0, items@.len() as int) =~= items@);
    out
}


/// A scalar member of a JSON body that the library builds, as plain values.
pub enum BodyValue {
    /// A string.
    Text(Seq<char>),
    /// A boolean.
    Flag(bool),
    /// A number that is not an integer the decoder keeps, by its printed text.
    Decimal(Seq<char>),
}

/// `v` is the JSON value that `b` stands for.
pub open spec fn holds_value(v: JsonValue, b: BodyValue) -> bool {
    match b {
        BodyValue::Text(t) => v matches JsonValue::String(s) && s@ == t,
        BodyValue::Flag(f) => v == JsonValue::Bool(f),
        BodyValue::Decimal(t) => v matches JsonValue::Number(JsonNumber::Float(s)) && s@ == t,
    }
}

/// The members `m` are, in order, the named scalars `expected`.
pub open spec fn members_hold(m: Seq<(String, JsonValue)>, expected: Seq<(Seq<char>, BodyValue)>) -> bool {
    &&& m.len() == expected.len()
    &&& forall|i: int|
        0 <= i < m.len() ==> #[trigger] m[i].0@ == expected[i].0 && holds_value(m[i].1, expected[i].1)
}

/// `v` is an object whose members are, in order, the named scalars `expected`.
pub open spec fn object_holds(v: JsonValue, expected: Seq<(Seq<char>, BodyValue)>) -> bool {
    v matches JsonValue::Object(m) && members_hold(m@, expected)
}

/// The member `name` when there is a value, nothing otherwise.
pub open spec fn body_entry(name: Seq<char>, value: Option<BodyValue>) -> Seq<(Seq<char>, BodyValue)> {
    match value {
        Some(b) => seq![(name, b)],
        None => seq![],
    }
}

/// An optional string as a body value.
pub open spec fn text_body(v: Option<String>) -> Option<BodyValue> {
    match v {
        Some(s) => Some(BodyValue::Text(s@)),
        None => None,
    }
}

/// An optional boolean as a body value.
pub open spec fn flag_body(v: Option<bool>) -> Option<BodyValue> {
    match v {
        Some(b) => Some(BodyValue::Flag(b)),
        None => None,
    }
}

/// An optional decimal, given by its text, as a body value.
pub open spec fn decimal_body(v: Option<String>) -> Option<BodyValue> {
    match v {
        Some(s) => Some(BodyValue::Decimal(s@)),
        None => None,
    }
}

/// Appends the member `name` holding `value`, when there is one.
fn push_member(
    out: &mut Vec<(String, JsonValue)>,
    name: &str,
    value: Option<JsonValue>,
    Ghost(expected): Ghost<Seq<(Seq<char>, BodyValue)>>,
    Ghost(b): Ghost<Option<BodyValue>>,
)
    requires
        members_hold(old(out)@, expected),
        match (value, b) {
            (Some(v), Some(bv)) => holds_value(v, bv),
            (None, None) => true,
            _ => false,
        },
    ensures
        members_hold(final(out)@, expected + body_entry(name@, b)),
{
    match value {
        Some(v) => {
            out.push((name.to_owned(), v));
            assert(forall|i: int| 0 <= i < expected.len() ==> (expected + body_entry(name@, b))[i] == expected[i]);
        },
        None => {
            assert(expected + body_entry(name@, b) =~= expected);
        },
    }
}

/// Appends the string member `name` when `value` is set.
pub(crate) fn push_text_member(
    out: &mut Vec<(String, JsonValue)>,
    name: &str,
    value: &Option<String>,
    Ghost(expected): Ghost<Seq<(Seq<char>, BodyValue)>>,
)
    requires
        members_hold(old(out)@, expected),
    ensures
        members_hold(final(out)@, expected + body_entry(name@, text_body(*value))),
{
    let v = match value {
        Some(s) => Some(JsonValue::String(s.clone())),
        None => None,
    };
    push_member(out, name, v, Ghost(expected), Ghost(text_body(*value)));
}

/// Appends the boolean member `name` when `value` is set.
pub(crate) fn push_flag_member(
    out: &mut Vec<(String, JsonValue)>,
    name: &str,
    value: Option<bool>,
    Ghost(expected): Ghost<Seq<(Seq<char>, BodyValue)>>,
)
    requires
        members_hold(old(out)@, expected),
    ensures
        members_hold(final(out)@, expected + body_entry(name@, flag_body(value))),
{
    let v = match value {
        Some(b) => Some(JsonValue::Bool(b)),
        None => None,
    };
    push_member(out, name, v, Ghost(expected), Ghost(flag_body(value)));
}

/// Appends the number member `name`, given by its text, when `value` is set.
pub(crate) fn push_decimal_member(
    out: &mut Vec<(String, JsonValue)>,
    name: &str,
    value: &Option<String>,
    Ghost(expected): Ghost<Seq<(Seq<char>, BodyValue)>>,
)
    requires
        members_hold(old(out)@, expected),
    ensures
        members_hold(final(out)@, expected + body_entry(name@, decimal_body(*value))),
{
    let v = match value {
        Some(s) => Some(JsonValue::Number(JsonNumber::Float(s.clone()))),
        None => None,
    };
    push_member(out, name, v, Ghost(expected), Ghost(decimal_body(*value)));
}

} // verus!
