use canvas_lms_api::error::{ApiError, CanvasError, CanvasErrorBody};
use canvas_lms_api::http::{check_status, is_success, Requester};

fn fail(status: u16, www: Option<&str>, remaining: Option<&str>, body: &str, parsed: Option<CanvasErrorBody>) -> CanvasError {
    match check_status(
        status,
        www.map(|s| s.to_string()),
        remaining.map(|s| s.to_string()),
        body.to_string(),
        parsed,
    ) {
        Err(e) => e,
        Ok(()) => panic!("expected an error for status {status}"),
    }
}

fn body_with(errors: Option<Vec<(Option<&str>, Option<&str>)>>, error: Option<&str>) -> Option<CanvasErrorBody> {
    Some(CanvasErrorBody {
        errors: errors.map(|es| {
            es.into_iter()
                .map(|(m, t)| ApiError { message: m.map(|s| s.to_string()), error_type: t.map(|s| s.to_string()) })
                .collect()
        }),
        error: error.map(|s| s.to_string()),
        error_report_id: None,
    })
}

#[test]
fn success_statuses_pass() {
    for s in [200u16, 201, 204, 299] {
        assert!(is_success(s));
        assert!(check_status(s, None, None, String::new(), None).is_ok());
    }
    for s in [199u16, 300, 404, 500] {
        assert!(!is_success(s));
    }
}

#[test]
fn bad_request_keeps_message_and_errors() {
    let e = fail(400, None, None, "{}", body_with(Some(vec![(Some("name is required"), Some("required"))]), None));
    match e {
        CanvasError::BadRequest { message, errors } => {
            assert_eq!(message, "name is required");
            assert_eq!(errors.len(), 1);
            assert_eq!(errors[0].error_type.as_deref(), Some("required"));
        },
        other => panic!("unexpected {other:?}"),
    }
}

#[test]
fn unauthorized_depends_on_www_authenticate() {
    assert!(matches!(
        fail(401, Some("Bearer"), None, "bad token", None),
        CanvasError::InvalidAccessToken(m) if m == "bad token"
    ));
    assert!(matches!(fail(401, None, None, "no", None), CanvasError::Unauthorized(m) if m == "no"));
}

#[test]
fn other_statuses_map_to_their_variants() {
    assert!(matches!(fail(403, None, None, "x", None), CanvasError::Forbidden(m) if m == "x"));
    assert!(matches!(fail(404, None, None, "x", None), CanvasError::ResourceDoesNotExist));
    assert!(matches!(fail(409, None, None, "x", None), CanvasError::Conflict(m) if m == "x"));
    assert!(matches!(fail(422, None, None, "x", None), CanvasError::UnprocessableEntity(m) if m == "x"));
    assert!(matches!(
        fail(429, None, Some("0.0"), "slow down", None),
        CanvasError::RateLimitExceeded { remaining: Some(r) } if r == "0.0"
    ));
    assert!(matches!(fail(429, None, None, "x", None), CanvasError::RateLimitExceeded { remaining: None }));
    assert!(matches!(
        fail(503, None, None, "down", None),
        CanvasError::ApiError { status: 503, message } if message == "down"
    ));
}

#[test]
fn message_falls_back_from_errors_to_error_to_body() {
    assert!(matches!(
        fail(403, None, None, "raw", body_with(Some(vec![(None, None)]), Some("top"))),
        CanvasError::Forbidden(m) if m == "top"
    ));
    assert!(matches!(
        fail(403, None, None, "raw", body_with(Some(vec![]), None)),
        CanvasError::Forbidden(m) if m == "raw"
    ));
    assert!(matches!(
        fail(403, None, None, "raw", body_with(Some(vec![(Some("first"), None), (Some("second"), None)]), Some("top"))),
        CanvasError::Forbidden(m) if m == "first"
    ));
}

#[test]
fn requester_roots_and_header() {
    let r = Requester::new("https://canvas.example.edu/api/v1/".to_string(), "abc".to_string());
    assert_eq!(r.base_url(), "https://canvas.example.edu/api/v1/");
    assert_eq!(r.new_quizzes_url(), "https://canvas.example.edu/api/quiz/v1/");
    assert_eq!(r.graphql_url(), "https://canvas.example.edu/api/graphql");
    assert_eq!(r.auth_header(), "Bearer abc");
}

#[test]
fn requests_join_the_endpoint_to_the_root() {
    let r = Requester::new("https://canvas.example.edu/api/v1/".to_string(), "abc".to_string());
    let q = r.get("courses/7", vec![]).unwrap();
    assert_eq!(q.url, "https://canvas.example.edu/api/v1/courses/7");
    assert!(matches!(r.get("http://[bad", vec![]), Err(CanvasError::Url(_))));
}
