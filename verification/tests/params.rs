use canvas_lms_api::json::{JsonNumber, JsonValue};
use canvas_lms_api::params::{flatten_params, to_canvas_params, wrap_params};

fn text(s: &str) -> JsonValue {
    JsonValue::String(s.to_string())
}

fn obj(members: Vec<(&str, JsonValue)>) -> JsonValue {
    JsonValue::Object(members.into_iter().map(|(k, v)| (k.to_string(), v)).collect())
}

fn num(n: u64) -> JsonValue {
    JsonValue::Number(JsonNumber::PosInt(n))
}

fn pairs(v: &[(&str, &str)]) -> Vec<(String, String)> {
    v.iter().map(|(k, x)| (k.to_string(), x.to_string())).collect()
}

#[test]
fn flat_string() {
    let v = obj(vec![("name", text("Test"))]);
    assert_eq!(flatten_params(&v), vec![("name".to_string(), "Test".to_string())]);
}

#[test]
fn nested_object() {
    let v = obj(vec![("course", obj(vec![("name", text("Intro"))]))]);
    assert_eq!(flatten_params(&v), vec![("course[name]".to_string(), "Intro".to_string())]);
}

#[test]
fn array_values() {
    let v = obj(vec![("ids", JsonValue::Array(vec![num(1), num(2), num(3)]))]);
    let params = flatten_params(&v);
    assert_eq!(params.len(), 3);
    assert!(params.iter().all(|(k, _)| k == "ids[]"));
    let vals: Vec<_> = params.iter().map(|(_, v)| v.as_str()).collect();
    assert_eq!(vals, ["1", "2", "3"]);
}

#[test]
fn bool_lowercased() {
    let v = obj(vec![("published", JsonValue::Bool(true))]);
    assert_eq!(flatten_params(&v), vec![("published".to_string(), "true".to_string())]);
}

#[test]
fn null_omitted() {
    let v = obj(vec![("name", JsonValue::Null)]);
    assert!(flatten_params(&v).is_empty());
}

#[test]
fn nested_arrays_and_objects_use_brackets() {
    let v = obj(vec![("name", text("Foo")), ("ids", JsonValue::Array(vec![num(1), num(2)]))]);
    assert_eq!(
        to_canvas_params("course", &v),
        pairs(&[("course[name]", "Foo"), ("course[ids][]", "1"), ("course[ids][]", "2")])
    );
}

#[test]
fn numbers_print_as_the_decoder_prints_them() {
    let v = obj(vec![
        ("a", JsonValue::Number(JsonNumber::NegInt(-42))),
        ("b", JsonValue::Number(JsonNumber::Float("2.5".to_string()))),
        ("c", num(18446744073709551615)),
        ("d", num(0)),
    ]);
    assert_eq!(
        flatten_params(&v),
        pairs(&[("a", "-42"), ("b", "2.5"), ("c", "18446744073709551615"), ("d", "0")])
    );
}

#[test]
fn flatten_of_a_non_object_is_empty() {
    assert!(flatten_params(&text("x")).is_empty());
    assert!(flatten_params(&JsonValue::Array(vec![num(1)])).is_empty());
    assert!(flatten_params(&JsonValue::Null).is_empty());
}

#[test]
fn wrap_puts_members_under_the_key() {
    let v = obj(vec![("name", text("Intro")), ("public", JsonValue::Bool(false)), ("gone", JsonValue::Null)]);
    assert_eq!(
        wrap_params("course", &v),
        pairs(&[("course[name]", "Intro"), ("course[public]", "false")])
    );
}

#[test]
fn scalar_at_top_keeps_the_key() {
    assert_eq!(to_canvas_params("q", &text("x")), pairs(&[("q", "x")]));
    assert!(to_canvas_params("q", &JsonValue::Array(vec![])).is_empty());
}
