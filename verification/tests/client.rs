use canvas_lms_api::client::{Canvas, UserId};
use canvas_lms_api::http::{Method, Payload};
use canvas_lms_api::json::JsonValue;
use canvas_lms_api::resources::calendar_event::CalendarEventParams;
use canvas_lms_api::resources::conversation::ConversationParams;
use canvas_lms_api::resources::planner::PlannerNoteParams;
use canvas_lms_api::CanvasError;
use canvas_lms_api::pagination::PageStep;

fn canvas() -> Canvas {
    Canvas::new("https://canvas.example.edu", "my-token").unwrap()
}

fn form(p: Payload) -> Vec<(String, String)> {
    match p {
        Payload::Form(f) => f,
        other => panic!("expected a form, got {other:?}"),
    }
}

fn pairs(v: &[(&str, &str)]) -> Vec<(String, String)> {
    v.iter().map(|(k, x)| (k.to_string(), x.to_string())).collect()
}

#[test]
fn new_builds_the_api_roots() {
    let c = canvas();
    assert_eq!(c.requester.base_url(), "https://canvas.example.edu/api/v1/");
    assert_eq!(c.requester.new_quizzes_url(), "https://canvas.example.edu/api/quiz/v1/");
    assert_eq!(c.requester.graphql_url(), "https://canvas.example.edu/api/graphql");
}

#[test]
fn new_ignores_trailing_slashes_and_white_space() {
    for raw in ["https://canvas.example.edu/", " https://canvas.example.edu// ", "\thttps://canvas.example.edu\n"] {
        let c = Canvas::new(raw, " my-token ").unwrap();
        assert_eq!(c.requester.base_url(), "https://canvas.example.edu/api/v1/");
        assert_eq!(c.requester.auth_header(), "Bearer my-token");
    }
}

#[test]
fn new_keeps_a_path_below_the_host() {
    let c = Canvas::new("https://example.edu/canvas", "t").unwrap();
    assert_eq!(c.requester.base_url(), "https://example.edu/canvas/api/v1/");
}

#[test]
fn new_refuses_the_api_path() {
    match Canvas::new("https://canvas.example.edu/api/v1", "t") {
        Err(CanvasError::ApiError { status, message }) => {
            assert_eq!(status, 0);
            assert_eq!(message, "base_url should not include /api/v1");
        },
        _ => panic!("expected an error"),
    }
    assert!(matches!(
        Canvas::new("https://canvas.example.edu/api/v1/", "t"),
        Err(CanvasError::ApiError { status: 0, .. })
    ));
}

#[test]
fn new_refuses_what_is_not_a_url() {
    assert!(matches!(Canvas::new("canvas.example.edu", "t"), Err(CanvasError::Url(_))));
    assert!(matches!(Canvas::new("", "t"), Err(CanvasError::Url(_))));
}

#[test]
fn get_course_request() {
    let q = canvas().get_course(1).unwrap();
    assert_eq!(q.method, Method::Get);
    assert_eq!(q.url, "https://canvas.example.edu/api/v1/courses/1");
    assert_eq!(q.authorization, "Bearer my-token");
    assert!(matches!(q.payload, Payload::Query(ref p) if p.is_empty()));
}

#[test]
fn get_user_by_id_or_self() {
    assert_eq!(canvas().get_user(UserId::Id(42)).unwrap().url, "https://canvas.example.edu/api/v1/users/42");
    assert_eq!(canvas().get_user(UserId::Current).unwrap().url, "https://canvas.example.edu/api/v1/users/self");
    assert_eq!(UserId::Id(0).to_path_segment(), "0");
}

#[test]
fn create_conversation_form() {
    let params = ConversationParams {
        subject: Some("Hi".to_string()),
        force_new: Some(true),
        group_conversation: None,
        context_code: Some("course_1".to_string()),
    };
    let q = canvas().create_conversation(&["1", "2"], "Hello", params).unwrap();
    assert_eq!(q.method, Method::Post);
    assert_eq!(q.url, "https://canvas.example.edu/api/v1/conversations");
    assert_eq!(
        form(q.payload),
        pairs(&[
            ("recipients[]", "1"),
            ("recipients[]", "2"),
            ("body", "Hello"),
            ("subject", "Hi"),
            ("force_new", "true"),
            ("context_code", "course_1"),
        ])
    );
}

#[test]
fn created_conversation_takes_the_first_element() {
    let first = JsonValue::String("a".to_string());
    let answer = JsonValue::Array(vec![first, JsonValue::Null]);
    assert!(matches!(Canvas::created_conversation(&answer), JsonValue::String(s) if s == "a"));
    let single = JsonValue::Bool(true);
    assert!(matches!(Canvas::created_conversation(&single), JsonValue::Bool(true)));
    let empty = JsonValue::Array(vec![]);
    assert!(matches!(Canvas::created_conversation(&empty), JsonValue::Array(v) if v.is_empty()));
}

#[test]
fn create_calendar_event_form() {
    let params = CalendarEventParams { title: Some("Exam".to_string()), ..Default::default() };
    let q = canvas().create_calendar_event("course_3", params).unwrap();
    assert_eq!(
        form(q.payload),
        pairs(&[("calendar_event[title]", "Exam"), ("calendar_event[context_code]", "course_3")])
    );
}

#[test]
fn create_planner_note_form_in_name_order() {
    let params = PlannerNoteParams {
        title: Some("Read".to_string()),
        details: None,
        todo_date: Some("2024-01-01".to_string()),
        course_id: Some(5),
    };
    let q = canvas().create_planner_note(params).unwrap();
    assert_eq!(
        form(q.payload),
        pairs(&[("course_id", "5"), ("title", "Read"), ("todo_date", "2024-01-01")])
    );
}

#[test]
fn graphql_query_body() {
    let q = canvas().graphql().query("{ allCourses { id } }", None);
    assert_eq!(q.method, Method::Post);
    assert_eq!(q.url, "https://canvas.example.edu/api/graphql");
    match q.payload {
        Payload::Json(JsonValue::Object(m)) => {
            assert_eq!(m.len(), 2);
            assert_eq!(m[0].0, "query");
            assert!(matches!(&m[0].1, JsonValue::String(s) if s == "{ allCourses { id } }"));
            assert_eq!(m[1].0, "variables");
            assert!(matches!(m[1].1, JsonValue::Null));
        },
        _ => panic!("expected a JSON object"),
    }
}

#[test]
fn listings_start_at_the_endpoint() {
    let mut s = canvas().get_courses();
    match s.next_step() {
        PageStep::Fetch(q) => assert_eq!(q.url, "https://canvas.example.edu/api/v1/courses"),
        _ => panic!("expected a fetch"),
    }
}

#[test]
fn url_errors_carry_the_parser_error() {
    assert!(matches!(
        Canvas::new("canvas.example.edu", "t"),
        Err(CanvasError::Url(url::ParseError::RelativeUrlWithoutBase))
    ));
    assert!(matches!(
        Canvas::new("http://[::1", "t"),
        Err(CanvasError::Url(url::ParseError::InvalidIpv6Address))
    ));
}
