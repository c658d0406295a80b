use canvas_lms_api::http::{Method, Payload, Requester};
use canvas_lms_api::json::{JsonNumber, JsonValue};
use canvas_lms_api::pagination::{page_items, page_next_url, parse_link_next, with_default_per_page, PageStep, PageStream};
use std::sync::Arc;

fn text(s: &str) -> JsonValue {
    JsonValue::String(s.to_string())
}

fn obj(members: Vec<(&str, JsonValue)>) -> JsonValue {
    JsonValue::Object(members.into_iter().map(|(k, v)| (k.to_string(), v)).collect())
}

fn num(n: u64) -> JsonValue {
    JsonValue::Number(JsonNumber::PosInt(n))
}

fn pairs(v: &[(&str, &str)]) -> Vec<(String, String)> {
    v.iter().map(|(k, x)| (k.to_string(), x.to_string())).collect()
}

fn requester() -> Arc<Requester> {
    Arc::new(Requester::new("https://canvas.example.edu/api/v1/".to_string(), "tok".to_string()))
}

#[test]
fn link_header_next_is_found() {
    let h = "<https://canvas.example.edu/api/v1/courses?page=1>; rel=\"current\", \
             <https://canvas.example.edu/api/v1/courses?page=2>; rel=\"next\", \
             <https://canvas.example.edu/api/v1/courses?page=9>; rel=\"last\"";
    assert_eq!(
        parse_link_next(h),
        Some("https://canvas.example.edu/api/v1/courses?page=2".to_string())
    );
}

#[test]
fn link_header_without_next() {
    let h = "<https://canvas.example.edu/api/v1/courses?page=1>; rel=\"first\"";
    assert_eq!(parse_link_next(h), None);
    assert_eq!(parse_link_next(""), None);
}

#[test]
fn link_header_rel_without_quotes_and_spaces() {
    let h = "  <https://x.example/a?page=3> ;rel=next";
    assert_eq!(parse_link_next(h), Some("https://x.example/a?page=3".to_string()));
}

#[test]
fn link_header_next_that_is_not_a_url() {
    let h = "<not a url>; rel=\"next\", <https://x.example/b>; rel=\"next\"";
    assert_eq!(parse_link_next(h), None);
}

#[test]
fn link_next_is_normalized_by_the_url_parser() {
    let h = "<HTTPS://X.Example/a b>; rel=\"next\"";
    assert_eq!(parse_link_next(h), Some("https://x.example/a%20b".to_string()));
}

#[test]
fn items_of_an_array_body() {
    let body = JsonValue::Array(vec![num(1), num(2)]);
    assert_eq!(page_items(&body).len(), 2);
}

#[test]
fn items_of_an_object_body_come_from_its_first_array() {
    let body = obj(vec![
        ("meta", obj(vec![])),
        ("events", JsonValue::Array(vec![num(7)])),
        ("other", JsonValue::Array(vec![num(8), num(9)])),
    ]);
    let items = page_items(&body);
    assert_eq!(items.len(), 1);
    assert!(matches!(items[0], JsonValue::Number(JsonNumber::PosInt(7))));
    assert!(page_items(&text("x")).is_empty());
    assert!(page_items(&obj(vec![("a", num(1))])).is_empty());
}

#[test]
fn next_page_from_link_then_meta() {
    let body = obj(vec![(
        "meta",
        obj(vec![("pagination", obj(vec![("next", text("https://x.example/p2"))]))]),
    )]);
    assert_eq!(page_next_url(None, &body), Some("https://x.example/p2".to_string()));
    assert_eq!(
        page_next_url(Some("<https://x.example/p3>; rel=\"next\""), &body),
        Some("https://x.example/p3".to_string())
    );
    assert_eq!(page_next_url(Some("<https://x.example/p3>; rel=\"last\""), &body), Some("https://x.example/p2".to_string()));
    assert_eq!(page_next_url(None, &obj(vec![])), None);
}

#[test]
fn default_page_size_is_added_once() {
    assert_eq!(with_default_per_page(vec![]), pairs(&[("per_page", "100")]));
    assert_eq!(
        with_default_per_page(pairs(&[("a", "1")])),
        pairs(&[("a", "1"), ("per_page", "100")])
    );
    assert_eq!(
        with_default_per_page(pairs(&[("per_page", "10"), ("a", "1")])),
        pairs(&[("per_page", "10"), ("a", "1")])
    );
    let once = with_default_per_page(pairs(&[("a", "1")]));
    assert_eq!(with_default_per_page(once.clone()), once);
}

#[test]
fn listing_fetches_hands_out_in_order_and_stops() {
    let mut s: PageStream<u64> = PageStream::new(requester(), "courses", pairs(&[("include[]", "term")]));
    match s.next_step() {
        PageStep::Fetch(q) => {
            assert_eq!(q.method, Method::Get);
            assert_eq!(q.url, "https://canvas.example.edu/api/v1/courses");
            assert_eq!(q.authorization, "Bearer tok");
            match q.payload {
                Payload::Query(p) => assert_eq!(p, pairs(&[("include[]", "term"), ("per_page", "100")])),
                _ => panic!("expected a query"),
            }
        },
        _ => panic!("expected a fetch"),
    }
    s.page_loaded(vec![1, 2], Some("https://canvas.example.edu/api/v1/courses?page=2".to_string()));
    assert!(matches!(s.next_step(), PageStep::Item(1)));
    assert!(matches!(s.next_step(), PageStep::Item(2)));
    match s.next_step() {
        PageStep::Fetch(q) => assert_eq!(q.url, "https://canvas.example.edu/api/v1/courses?page=2"),
        _ => panic!("expected a fetch"),
    }
    s.page_loaded(vec![3], None);
    assert!(matches!(s.next_step(), PageStep::Item(3)));
    assert!(matches!(s.next_step(), PageStep::Done));
    assert!(matches!(s.next_step(), PageStep::Done));
}

#[test]
fn listing_with_an_endpoint_that_does_not_join_is_empty() {
    let r = Arc::new(Requester::new("not a url".to_string(), "tok".to_string()));
    let mut s: PageStream<u64> = PageStream::new(r, "courses", vec![]);
    assert!(matches!(s.next_step(), PageStep::Done));
}
