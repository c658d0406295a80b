//! Canvas bracket-notation parameters.
//!
//! Canvas reads nested form and query parameters in bracket notation:
//! `{"course": {"name": "Foo", "ids": [1, 2]}}` is sent as
//! `course[name]=Foo`, `course[ids][]=1`, `course[ids][]=2`.
use vstd::prelude::*;
use crate::json::{number_text, number_to_text, JsonValue};
use crate::text::{bool_text, bool_to_text, dec, dec_signed, i64_to_text, push_char, u64_to_text};

verus! {

/// A list of parameters as plain text pairs.
pub open spec fn pairs_view(v: Seq<(String, String)>) -> Seq<(Seq<char>, Seq<char>)> {
    v.map_values(|p: (String, String)| (p.0@, p.1@))
}

/// The key of an object member: `key[name]`.
pub open spec fn member_key(key: Seq<char>, name: Seq<char>) -> Seq<char> {
    key + seq!['['] + name + seq![']']
}

/// The key of an array element: `key[]`.
pub open spec fn element_key(key: Seq<char>) -> Seq<char> {
    key + seq!['[', ']']
}

/// The parameters that a value gives under `key`: one pair per string, number
/// or boolean inside it, none for `null`, objects and arrays descending with
/// `key[name]` and `key[]`.
pub open spec fn canvas_params(key: Seq<char>, v: JsonValue) -> Seq<(Seq<char>, Seq<char>)>
    decreases v,
{
    match v {
        JsonValue::Object(entries) => members_params(key, entries@),
        JsonValue::Array(items) => elements_params(element_key(key), items@),
        JsonValue::Bool(b) => seq![(key, bool_text(b))],
        JsonValue::Number(n) => seq![(key, number_text(n))],
        JsonValue::String(s) => seq![(key, s@)],
        JsonValue::Null => seq![],
    }
}

/// The parameters of the members of an object under `key`, in member order.
pub open spec fn members_params(key: Seq<char>, entries: Seq<(String, JsonValue)>) -> Seq<
    (Seq<char>, Seq<char>),
>
    decreases entries,
{
    if entries.len() == 0 {
        seq![]
    } else {
        let last = entries[entries.len() - 1];
        members_params(key, entries.subrange(0, entries.len() - 1)) + canvas_params(
            member_key(key, last.0@),
            last.1,
        )
    }
}

/// The parameters of the elements of an array, each under `key`, in element order.
pub open spec fn elements_params(key: Seq<char>, items: Seq<JsonValue>) -> Seq<
    (Seq<char>, Seq<char>),
>
    decreases items,
{
    if items.len() == 0 {
        seq![]
    } else {
        elements_params(key, items.subrange(0, items.len() - 1)) + canvas_params(
            key,
            items[items.len() - 1],
        )
    }
}

/// The parameters of a top-level value: the members of an object, each under its
/// own name; nothing for any other value.
pub open spec fn flat_params(v: JsonValue) -> Seq<(Seq<char>, Seq<char>)> {
    match v {
        JsonValue::Object(entries) => top_members_params(entries@),
        _ => seq![],
    }
}

/// The parameters of the members of a top-level object, each under its own name.
pub open spec fn top_members_params(entries: Seq<(String, JsonValue)>) -> Seq<
    (Seq<char>, Seq<char>),
>
    decreases entries.len(),
{
    if entries.len() == 0 {
        seq![]
    } else {
        let last = entries[entries.len() - 1];
        top_members_params(entries.subrange(0, entries.len() - 1)) + canvas_params(
            last.0@,
            last.1,
        )
    }
}

pub fn member_key_text(key: &str, name: &str) -> (s: String)
    ensures
        s@ == member_key(key@, name@),
{
    let mut s = key.to_owned();
    push_char(&mut s, '[');
    s.append(name);
    push_char(&mut s, ']');
    s
}

fn element_key_text(key: &str) -> (s: String)
    ensures
        s@ == element_key(key@),
{
    let mut s = key.to_owned();
    push_char(&mut s, '[');
    push_char(&mut s, ']');
    assert(s@ =~= element_key(key@));
    s
}

/// Flattens `value` into Canvas bracket-notation parameters under `key`.
///
/// `{"course": {"name": "Foo", "ids": [1, 2]}}` under its member `course` gives
/// `[("course[name]", "Foo"), ("course[ids][]", "1"), ("course[ids][]", "2")]`.
pub fn to_canvas_params(key: &str, value: &JsonValue) -> (r: Vec<(String, String)>)
    ensures
        pairs_view(r@) == canvas_params(key@, *value),
    decreases value,
{
    match value {
        JsonValue::Object(entries) => {
            let mut out: Vec<(String, String)> = Vec::new();
            let mut i: usize = 0;
            while i < entries.len()
                invariant
                    i <= entries@.len(),
                    pairs_view(out@) == members_params(key@, entries@.subrange(0, i as int)),
                    *value == JsonValue::Object(*entries),
                decreases entries@.len() - i,
            {
                let name = &entries[i].0;
                let sub_key = member_key_text(key, name.as_str());
                proof {
                    assert(decreases_to!(*value => value->Object_0));
                    assert(decreases_to!(*entries => entries[i as int]));
                    assert(decreases_to!(entries[i as int] => entries[i as int].1));
                }
                let mut sub = to_canvas_params(sub_key.as_str(), &entries[i].1);
                let ghost before = out@;
                let ghost added = sub@;
                out.append(&mut sub);
                proof {
                    let prefix = entries@.subrange(0, i + 1);
                    assert(prefix.subrange(0, prefix.len() - 1) =~= entries@.subrange(0, i as int));
                    assert(prefix[prefix.len() - 1] == entries@[i as int]);
                    assert(pairs_view(out@) =~= pairs_view(before) + pairs_view(added));
                }
                i = i + 1;
            }
            assert(entries@.subrange(0, entries@.len() as int) =~= entries@);
            out
        },
        JsonValue::Array(items) => {
            let elem_key = element_key_text(key);
            let mut out: Vec<(String, String)> = Vec::new();
            let mut i: usize = 0;
            while i < items.len()
                invariant
                    i <= items@.len(),
                    elem_key@ == element_key(key@),
                    pairs_view(out@) == elements_params(elem_key@, items@.subrange(0, i as int)),
                    *value == JsonValue::Array(*items),
                decreases items@.len() - i,
            {
                proof {
                    assert(decreases_to!(*value => value->Array_0));
                    assert(decreases_to!(*items => items[i as int]));
                }
                let mut sub = to_canvas_params(elem_key.as_str(), &items[i]);
                let ghost before = out@;
                let ghost added = sub@;
                out.append(&mut sub);
                proof {
                    let prefix = items@.subrange(0, i + 1);
                    assert(prefix.subrange(0, prefix.len() - 1) =~= items@.subrange(0, i as int));
                    assert(prefix[prefix.len() - 1] == items@[i as int]);
                    assert(pairs_view(out@) =~= pairs_view(before) + pairs_view(added));
                }
                i = i + 1;
            }
            assert(items@.subrange(0, items@.len() as int) =~= items@);
            out
        },
        JsonValue::Bool(b) => {
            let out = vec![(key.to_owned(), bool_to_text(*b))];
            assert(pairs_view(out@) =~= canvas_params(key@, *value));
            out
        },
        JsonValue::Number(n) => {
            let out = vec![(key.to_owned(), number_to_text(n))];
            assert(pairs_view(out@) =~= canvas_params(key@, *value));
            out
        },
        JsonValue::String(s) => {
            let out = vec![(key.to_owned(), s.clone())];
            assert(pairs_view(out@) =~= canvas_params(key@, *value));
            out
        },
        JsonValue::Null => {
            let out: Vec<(String, String)> = Vec::new();
            assert(pairs_view(out@) =~= canvas_params(key@, *value));
            out
        },
    }
}

/// Flattens a top-level object into Canvas parameters, each member under its
/// own name. Any other value gives no parameters.
pub fn flatten_params(value: &JsonValue) -> (r: Vec<(String, String)>)
    ensures
        pairs_view(r@) == flat_params(*value),
{
    match value {
        JsonValue::Object(entries) => {
            let mut out: Vec<(String, String)> = Vec::new();
            let mut i: usize = 0;
            while i < entries.len()
                invariant
                    i <= entries@.len(),
                    pairs_view(out@) == top_members_params(entries@.subrange(0, i as int)),
                decreases entries@.len() - i,
            {
                let mut sub = to_canvas_params(entries[i].0.as_str(), &entries[i].1);
                let ghost before = out@;
                let ghost added = sub@;
                out.append(&mut sub);
                proof {
                    let prefix = entries@.subrange(0, i + 1);
                    assert(prefix.subrange(0, prefix.len() - 1) =~= entries@.subrange(0, i as int));
                    assert(prefix[prefix.len() - 1] == entries@[i as int]);
                    assert(pairs_view(out@) =~= pairs_view(before) + pairs_view(added));
                }
                i = i + 1;
            }
            assert(entries@.subrange(0, entries@.len() as int) =~= entries@);
            out
        },
        _ => Vec::new(),
    }
}

/// Puts `value` under `key` and flattens the result: the parameters that the
/// object `{key: value}` gives.
///
/// `wrap_params("course", {"name": "Intro"})` gives `[("course[name]", "Intro")]`.
pub fn wrap_params(key: &str, value: &JsonValue) -> (r: Vec<(String, String)>)
    ensures
        pairs_view(r@) == canvas_params(key@, *value),
{
    to_canvas_params(key, value)
}

/// Wrapping a value under `key` gives exactly what flattening the one-member
/// object `{key: value}` gives.
pub proof fn lemma_wrap_is_flatten_of_single_member(entries: Vec<(String, JsonValue)>)
    requires
        entries@.len() == 1,
    ensures
        flat_params(JsonValue::Object(entries)) == canvas_params(entries@[0].0@, entries@[0].1),
{
    let e = entries@;
    assert(e.subrange(0, 0).len() == 0);
    assert(top_members_params(e.subrange(0, 0)) =~= seq![]);
    assert(top_members_params(e) =~= canvas_params(e[0].0@, e[0].1));
}

/// Flattening anything but an object gives no parameters.
pub proof fn lemma_flatten_non_object_is_empty(v: JsonValue)
    requires
        !(v is Object),
    ensures
        flat_params(v).len() == 0,
{
}

/// A `null` value gives no parameters, whatever its key.
pub proof fn lemma_null_omitted(key: Seq<char>)
    ensures
        canvas_params(key, JsonValue::Null).len() == 0,
{
}

/// The number of strings, numbers and booleans inside a value (`null` counts none).
pub open spec fn scalar_count(v: JsonValue) -> nat
    decreases v,
{
    match v {
        JsonValue::Object(entries) => members_scalar_count(entries@),
        JsonValue::Array(items) => elements_scalar_count(items@),
        JsonValue::Null => 0,
        _ => 1,
    }
}

/// The number of strings, numbers and booleans inside the members of an object.
pub open spec fn members_scalar_count(entries: Seq<(String, JsonValue)>) -> nat
    decreases entries,
{
    if entries.len() == 0 {
        0
    } else {
        members_scalar_count(entries.subrange(0, entries.len() - 1)) + scalar_count(
            entries[entries.len() - 1].1,
        )
    }
}

/// The number of strings, numbers and booleans inside the elements of an array.
pub open spec fn elements_scalar_count(items: Seq<JsonValue>) -> nat
    decreases items,
{
    if items.len() == 0 {
        0
    } else {
        elements_scalar_count(items.subrange(0, items.len() - 1)) + scalar_count(
            items[items.len() - 1],
        )
    }
}

/// `key` starts `s`.
pub open spec fn starts_with(s: Seq<char>, key: Seq<char>) -> bool {
    key.len() <= s.len() && s.subrange(0, key.len() as int) == key
}

/// Every parameter that a value gives under `key` has a key that starts with
/// `key`, and there is exactly one parameter per string, number and boolean in
/// the value.
pub proof fn lemma_params_keys_and_count(key: Seq<char>, v: JsonValue)
    ensures
        canvas_params(key, v).len() == scalar_count(v),
        forall|i: int|
            0 <= i < canvas_params(key, v).len() ==> starts_with(
                #[trigger] canvas_params(key, v)[i].0,
                key,
            ),
    decreases v,
{
    match v {
        JsonValue::Object(entries) => {
            assert(decreases_to!(v => v->Object_0));
            lemma_members_keys_and_count(key, entries@);
            let ps = canvas_params(key, v);
            assert(ps == members_params(key, entries@));
            assert forall|i: int| 0 <= i < ps.len() implies starts_with(#[trigger] ps[i].0, key) by {
                assert(starts_with(members_params(key, entries@)[i].0, key));
            }
        },
        JsonValue::Array(items) => {
            assert(decreases_to!(v => v->Array_0));
            lemma_elements_keys_and_count(element_key(key), items@);
            let ps = canvas_params(key, v);
            let ek = element_key(key);
            assert(ps == elements_params(ek, items@));
            assert(ek.subrange(0, key.len() as int) =~= key);
            assert forall|i: int| 0 <= i < ps.len() implies starts_with(#[trigger] ps[i].0, key) by {
                assert(starts_with(elements_params(ek, items@)[i].0, ek));
                let k = ps[i].0;
                assert(k.subrange(0, key.len() as int) =~= k.subrange(0, element_key(key).len() as int).subrange(0, key.len() as int));
            }
        },
        _ => {
            assert(key.subrange(0, key.len() as int) =~= key);
        },
    }
}

proof fn lemma_members_keys_and_count(key: Seq<char>, entries: Seq<(String, JsonValue)>)
    ensures
        members_params(key, entries).len() == members_scalar_count(entries),
        forall|i: int|
            0 <= i < members_params(key, entries).len() ==> starts_with(
                #[trigger] members_params(key, entries)[i].0,
                key,
            ),
    decreases entries,
{
    if entries.len() > 0 {
        let init = entries.subrange(0, entries.len() - 1);
        let last = entries[entries.len() - 1];
        let mk = member_key(key, last.0@);
        lemma_members_keys_and_count(key, init);
        assert(decreases_to!(entries => entries[entries.len() - 1]));
        lemma_params_keys_and_count(mk, last.1);
        let ps = members_params(key, entries);
        let a = members_params(key, init);
        let b = canvas_params(mk, last.1);
        assert(ps =~= a + b);
        assert forall|i: int| 0 <= i < ps.len() implies starts_with(#[trigger] ps[i].0, key) by {
            if i < a.len() {
                assert(ps[i] == a[i]);
            } else {
                assert(ps[i] == b[i - a.len()]);
                let k = ps[i].0;
                assert(starts_with(b[i - a.len()].0, mk));
                assert(mk.subrange(0, key.len() as int) =~= key);
                assert(k.subrange(0, key.len() as int) =~= k.subrange(0, mk.len() as int).subrange(0, key.len() as int));
            }
        }
    }
}

proof fn lemma_elements_keys_and_count(key: Seq<char>, items: Seq<JsonValue>)
    ensures
        elements_params(key, items).len() == elements_scalar_count(items),
        forall|i: int|
            0 <= i < elements_params(key, items).len() ==> starts_with(
                #[trigger] elements_params(key, items)[i].0,
                key,
            ),
    decreases items,
{
    if items.len() > 0 {
        let init = items.subrange(0, items.len() - 1);
        let last = items[items.len() - 1];
        lemma_elements_keys_and_count(key, init);
        lemma_params_keys_and_count(key, last);
        let ps = elements_params(key, items);
        let a = elements_params(key, init);
        let b = canvas_params(key, last);
        assert(ps =~= a + b);
        assert forall|i: int| 0 <= i < ps.len() implies starts_with(#[trigger] ps[i].0, key) by {
            if i < a.len() {
                assert(ps[i] == a[i]);
            } else {
                assert(ps[i] == b[i - a.len()]);
                assert(starts_with(b[i - a.len()].0, key));
            }
        }
    }
}

/// The parameter of one member of a settings object under `key`: `key[name]`
/// with the member's text when the member is set, nothing when it is not.
pub open spec fn field(key: Seq<char>, name: Seq<char>, value: Option<Seq<char>>) -> Seq<
    (Seq<char>, Seq<char>),
> {
    entry(member_key(key, name), value)
}

/// The parameter `k` with a member's text when the member is set, nothing when
/// it is not.
pub open spec fn entry(k: Seq<char>, value: Option<Seq<char>>) -> Seq<(Seq<char>, Seq<char>)> {
    match value {
        Some(t) => seq![(k, t)],
        None => seq![],
    }
}

fn push_entry(out: &mut Vec<(String, String)>, k: &str, value: Option<String>)
    ensures
        pairs_view(final(out)@) == pairs_view(old(out)@) + entry(k@, text_of(value)),
{
    match value {
        Some(t) => {
            let ghost before = out@;
            out.push((k.to_owned(), t));
            assert(pairs_view(out@) =~= pairs_view(before) + entry(k@, text_of(value)));
        },
        None => {
            assert(pairs_view(out@) =~= pairs_view(out@) + entry(k@, text_of(value)));
        },
    }
}

/// Adds the parameter `k` for a string member that is set.
pub fn add_text_at(out: &mut Vec<(String, String)>, k: &str, value: &Option<String>)
    ensures
        pairs_view(final(out)@) == pairs_view(old(out)@) + entry(k@, text_of(*value)),
{
    let v = match value {
        Some(t) => Some(t.clone()),
        None => None,
    };
    push_entry(out, k, v);
}

/// Adds the parameter `k` for a string member that is always present.
pub fn add_required_text_at(out: &mut Vec<(String, String)>, k: &str, value: &String)
    ensures
        pairs_view(final(out)@) == pairs_view(old(out)@) + entry(k@, Some(value@)),
{
    push_entry(out, k, Some(value.clone()));
}

/// Adds the parameter `k` for a boolean member that is set.
pub fn add_bool_at(out: &mut Vec<(String, String)>, k: &str, value: Option<bool>)
    ensures
        pairs_view(final(out)@) == pairs_view(old(out)@) + entry(k@, bool_of(value)),
{
    let v = match value {
        Some(b) => Some(bool_to_text(b)),
        None => None,
    };
    push_entry(out, k, v);
}

/// Adds the parameter `k` for an unsigned integer member that is set.
pub fn add_u64_at(out: &mut Vec<(String, String)>, k: &str, value: Option<u64>)
    ensures
        pairs_view(final(out)@) == pairs_view(old(out)@) + entry(k@, u64_of(value)),
{
    let v = match value {
        Some(n) => Some(u64_to_text(n)),
        None => None,
    };
    push_entry(out, k, v);
}

/// Adds the parameters of a JSON member under `k`, when it is set.
pub fn add_json_at(out: &mut Vec<(String, String)>, k: &str, value: &Option<JsonValue>)
    ensures
        pairs_view(final(out)@) == pairs_view(old(out)@) + (match *value {
            Some(v) => canvas_params(k@, v),
            None => seq![],
        }),
{
    match value {
        Some(v) => {
            let mut sub = to_canvas_params(k, v);
            let ghost before = out@;
            let ghost added = sub@;
            out.append(&mut sub);
            assert(pairs_view(out@) =~= pairs_view(before) + pairs_view(added));
        },
        None => {
            assert(pairs_view(out@) =~= pairs_view(out@) + seq![]);
        },
    }
}

/// The text of an optional string member.
pub open spec fn text_of(v: Option<String>) -> Option<Seq<char>> {
    match v {
        Some(s) => Some(s@),
        None => None,
    }
}

/// The text of an optional boolean member.
pub open spec fn bool_of(v: Option<bool>) -> Option<Seq<char>> {
    match v {
        Some(b) => Some(bool_text(b)),
        None => None,
    }
}

/// The text of an optional unsigned integer member.
pub open spec fn u64_of(v: Option<u64>) -> Option<Seq<char>> {
    match v {
        Some(n) => Some(dec(n as nat)),
        None => None,
    }
}

/// The text of an optional signed integer member.
pub open spec fn i64_of(v: Option<i64>) -> Option<Seq<char>> {
    match v {
        Some(n) => Some(dec_signed(n as int)),
        None => None,
    }
}

/// The parameters of a list member under `key`: `key[name][]` once per element.
pub open spec fn list_field(key: Seq<char>, name: Seq<char>, values: Seq<Seq<char>>) -> Seq<
    (Seq<char>, Seq<char>),
> {
    values.map_values(|t: Seq<char>| (element_key(member_key(key, name)), t))
}

/// The texts of a list of strings.
pub open spec fn texts_of(v: Seq<String>) -> Seq<Seq<char>> {
    v.map_values(|s: String| s@)
}

/// The texts of a list of unsigned integers.
pub open spec fn u64s_of(v: Seq<u64>) -> Seq<Seq<char>> {
    v.map_values(|n: u64| dec(n as nat))
}

fn push_field(out: &mut Vec<(String, String)>, key: &str, name: &str, value: Option<String>)
    ensures
        pairs_view(final(out)@) == pairs_view(old(out)@) + field(key@, name@, text_of(value)),
{
    match value {
        Some(t) => {
            let ghost before = out@;
            out.push((member_key_text(key, name), t));
            assert(pairs_view(out@) =~= pairs_view(before) + field(key@, name@, text_of(value)));
        },
        None => {
            assert(pairs_view(out@) =~= pairs_view(out@) + field(key@, name@, text_of(value)));
        },
    }
}

/// Adds `key[name]` for a string member that is set.
pub fn add_text(out: &mut Vec<(String, String)>, key: &str, name: &str, value: &Option<String>)
    ensures
        pairs_view(final(out)@) == pairs_view(old(out)@) + field(key@, name@, text_of(*value)),
{
    let v = match value {
        Some(t) => Some(t.clone()),
        None => None,
    };
    push_field(out, key, name, v);
}

/// Adds `key[name]` for a string member that is always present.
pub fn add_required_text(out: &mut Vec<(String, String)>, key: &str, name: &str, value: &String)
    ensures
        pairs_view(final(out)@) == pairs_view(old(out)@) + field(key@, name@, Some(value@)),
{
    push_field(out, key, name, Some(value.clone()));
}

/// Adds `key[name]` for a boolean member that is set.
pub fn add_bool(out: &mut Vec<(String, String)>, key: &str, name: &str, value: Option<bool>)
    ensures
        pairs_view(final(out)@) == pairs_view(old(out)@) + field(key@, name@, bool_of(value)),
{
    let v = match value {
        Some(b) => Some(bool_to_text(b)),
        None => None,
    };
    push_field(out, key, name, v);
}

/// Adds `key[name]` for an unsigned integer member that is set.
pub fn add_u64(out: &mut Vec<(String, String)>, key: &str, name: &str, value: Option<u64>)
    ensures
        pairs_view(final(out)@) == pairs_view(old(out)@) + field(key@, name@, u64_of(value)),
{
    let v = match value {
        Some(n) => Some(u64_to_text(n)),
        None => None,
    };
    push_field(out, key, name, v);
}

/// Adds `key[name]` for a signed integer member that is set.
pub fn add_i64(out: &mut Vec<(String, String)>, key: &str, name: &str, value: Option<i64>)
    ensures
        pairs_view(final(out)@) == pairs_view(old(out)@) + field(key@, name@, i64_of(value)),
{
    let v = match value {
        Some(n) => Some(i64_to_text(n)),
        None => None,
    };
    push_field(out, key, name, v);
}

/// Adds `key[name][]` once per string of a list member.
pub fn add_text_list(out: &mut Vec<(String, String)>, key: &str, name: &str, values: &Vec<String>)
    ensures
        pairs_view(final(out)@) == pairs_view(old(out)@) + list_field(key@, name@, texts_of(values@)),
{
    let member = member_key_text(key, name);
    let item_key = element_key_text(member.as_str());
    let ghost start = pairs_view(out@);
    let mut i: usize = 0;
    while i < values.len()
        invariant
            i <= values@.len(),
            item_key@ == element_key(member_key(key@, name@)),
            pairs_view(out@) == start + list_field(key@, name@, texts_of(values@.subrange(0, i as int))),
        decreases values@.len() - i,
    {
        let ghost before = out@;
        out.push((item_key.clone(), values[i].clone()));
        assert(list_field(key@, name@, texts_of(values@.subrange(0, i + 1))) =~= list_field(
            key@,
            name@,
            texts_of(values@.subrange(0, i as int)),
        ).push((item_key@, values@[i as int]@)));
        assert(pairs_view(out@) =~= pairs_view(before).push((item_key@, values@[i as int]@)));
        i = i + 1;
    }
    assert(values@.subrange(0, values@.len() as int) =~= values@);
}

/// Adds `key[name][]` once per integer of a list member.
pub fn add_u64_list(out: &mut Vec<(String, String)>, key: &str, name: &str, values: &Vec<u64>)
    ensures
        pairs_view(final(out)@) == pairs_view(old(out)@) + list_field(key@, name@, u64s_of(values@)),
{
    let member = member_key_text(key, name);
    let item_key = element_key_text(member.as_str());
    let ghost start = pairs_view(out@);
    let mut i: usize = 0;
    while i < values.len()
        invariant
            i <= values@.len(),
            item_key@ == element_key(member_key(key@, name@)),
            pairs_view(out@) == start + list_field(key@, name@, u64s_of(values@.subrange(0, i as int))),
        decreases values@.len() - i,
    {
        let ghost before = out@;
        let t = u64_to_text(values[i]);
        out.push((item_key.clone(), t));
        assert(list_field(key@, name@, u64s_of(values@.subrange(0, i + 1))) =~= list_field(
            key@,
            name@,
            u64s_of(values@.subrange(0, i as int)),
        ).push((item_key@, dec(values@[i as int] as nat))));
        assert(pairs_view(out@) =~= pairs_view(before).push((item_key@, dec(values@[i as int] as nat))));
        i = i + 1;
    }
    assert(values@.subrange(0, values@.len() as int) =~= values@);
}

/// One parameter `key` per id, each carrying the id.
pub open spec fn id_params_view(key: Seq<char>, ids: Seq<u64>) -> Seq<(Seq<char>, Seq<char>)> {
    ids.map_values(|n: u64| (key, dec(n as nat)))
}

/// One parameter `key` per id, in order (such as `ids[]=1&ids[]=2`).
pub fn id_params(key: &str, ids: &[u64]) -> (r: Vec<(String, String)>)
    ensures
        pairs_view(r@) == id_params_view(key@, ids@),
{
    let mut out: Vec<(String, String)> = Vec::new();
    let mut i: usize = 0;
    while i < ids.len()
        invariant
            i <= ids@.len(),
            pairs_view(out@) == id_params_view(key@, ids@.subrange(0, i as int)),
        decreases ids@.len() - i,
    {
        let ghost before = out@;
        out.push((key.to_owned(), u64_to_text(ids[i])));
        assert(id_params_view(key@, ids@.subrange(0, i + 1)) =~= id_params_view(
            key@,
            ids@.subrange(0, i as int),
        ).push((key@, dec(ids@[i as int] as nat))));
        assert(pairs_view(out@) =~= pairs_view(before).push((key@, dec(ids@[i as int] as nat))));
        i = i + 1;
    }
    assert(ids@.subrange(0, ids@.len() as int) =~= ids@);
    out
}

/// One parameter `key` per text, each carrying the text.
pub open spec fn text_params_view(key: Seq<char>, items: Seq<&str>) -> Seq<(Seq<char>, Seq<char>)> {
    items.map_values(|t: &str| (key, t@))
}

/// One parameter `key` per text, in order (such as `recipients[]=a&recipients[]=b`).
pub fn text_params(key: &str, items: &[&str]) -> (r: Vec<(String, String)>)
    ensures
        pairs_view(r@) == text_params_view(key@, items@),
{
    let mut out: Vec<(String, String)> = Vec::new();
    let mut i: usize = 0;
    while i < items.len()
        invariant
            i <= items@.len(),
            pairs_view(out@) == text_params_view(key@, items@.subrange(0, i as int)),
        decreases items@.len() - i,
    {
        let ghost before = out@;
        out.push((key.to_owned(), items[i].to_owned()));
        assert(text_params_view(key@, items@.subrange(0, i + 1)) =~= text_params_view(
            key@,
            items@.subrange(0, i as int),
        ).push((key@, items@[i as int]@)));
        assert(pairs_view(out@) =~= pairs_view(before).push((key@, items@[i as int]@)));
        i = i + 1;
    }
    assert(items@.subrange(0, items@.len() as int) =~= items@);
    out
}

/// Adds the parameters of a JSON member under `key[name]`, when it is set.
pub fn add_json(out: &mut Vec<(String, String)>, key: &str, name: &str, value: &Option<JsonValue>)
    ensures
        pairs_view(final(out)@) == pairs_view(old(out)@) + (match *value {
            Some(v) => canvas_params(member_key(key@, name@), v),
            None => seq![],
        }),
{
    match value {
        Some(v) => {
            let k = member_key_text(key, name);
            let mut sub = to_canvas_params(k.as_str(), v);
            let ghost before = out@;
            let ghost added = sub@;
            out.append(&mut sub);
            assert(pairs_view(out@) =~= pairs_view(before) + pairs_view(added));
        },
        None => {
            assert(pairs_view(out@) =~= pairs_view(out@) + seq![]);
        },
    }
}


/// The pair `(k, v)` followed by `rest`.
pub fn prepend_pair(k: &str, v: &str, rest: Vec<(String, String)>) -> (r: Vec<(String, String)>)
    ensures
        pairs_view(r@) == seq![(k@, v@)] + pairs_view(rest@),
{
    let mut out: Vec<(String, String)> = vec![(k.to_owned(), v.to_owned())];
    let mut tail = rest;
    let ghost first = out@;
    let ghost others = tail@;
    out.append(&mut tail);
    assert(pairs_view(out@) =~= seq![(k@, v@)] + pairs_view(others));
    out
}


/// The first `n` of `parts`, one after the other.
pub open spec fn concat_upto<A>(parts: Seq<Seq<A>>, n: nat) -> Seq<A>
    decreases n,
{
    if n == 0 {
        seq![]
    } else {
        concat_upto(parts, (n - 1) as nat) + parts[n - 1]
    }
}

/// A pair that one of the first `n` parts holds is in their concatenation.
pub proof fn lemma_part_in_concat<A>(parts: Seq<Seq<A>>, n: nat, k: int, x: A)
    requires
        0 <= k < n <= parts.len(),
        parts[k].contains(x),
    ensures
        concat_upto(parts, n).contains(x),
    decreases n,
{
    let prefix = concat_upto(parts, (n - 1) as nat);
    if k == n - 1 {
        let i = choose|i: int| 0 <= i < parts[k].len() && parts[k][i] == x;
        assert(concat_upto(parts, n)[prefix.len() + i] == x);
    } else {
        lemma_part_in_concat(parts, (n - 1) as nat, k, x);
        let i = choose|i: int| 0 <= i < prefix.len() && prefix[i] == x;
        assert(concat_upto(parts, n)[i] == x);
    }
}

} // verus!
