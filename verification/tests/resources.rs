use canvas_lms_api::client::Canvas;
use canvas_lms_api::http::{Method, Payload, Requester, Scope};
use canvas_lms_api::json::{JsonNumber, JsonValue};
use canvas_lms_api::resources::communication_channel::CommunicationChannel;
use canvas_lms_api::resources::content_migration::MigrationIssue;
use canvas_lms_api::resources::discussion_topic::{DiscussionEntry, DiscussionTopic, PostEntryParams};
use canvas_lms_api::resources::enrollment::Enrollment;
use canvas_lms_api::resources::favorite::Favorite;
use canvas_lms_api::resources::feature::FeatureFlag;
use canvas_lms_api::resources::module::{CreateModuleItemParams, Module};
use canvas_lms_api::resources::new_quiz::NewQuizParams;
use canvas_lms_api::resources::poll::{Poll, PollChoice};
use canvas_lms_api::CanvasError;
use std::sync::Arc;
use canvas_lms_api::pagination::PageStep;

fn req() -> Option<Arc<Requester>> {
    Some(Canvas::new("https://canvas.example.edu", "tok").unwrap().requester)
}

fn obj(members: Vec<(&str, JsonValue)>) -> JsonValue {
    JsonValue::Object(members.into_iter().map(|(k, v)| (k.to_string(), v)).collect())
}

fn text(s: &str) -> JsonValue {
    JsonValue::String(s.to_string())
}

fn bad_request(e: CanvasError) -> String {
    match e {
        CanvasError::BadRequest { message, errors } => {
            assert!(errors.is_empty());
            message
        },
        other => panic!("expected a bad request, got {other:?}"),
    }
}

fn entry(course: Option<u64>, group: Option<u64>, topic: Option<u64>) -> DiscussionEntry {
    DiscussionEntry {
        id: 9,
        user_id: None,
        discussion_id: None,
        parent_id: None,
        message: None,
        created_at: None,
        updated_at: None,
        requester: req(),
        course_id: course,
        group_id: group,
        topic_id: topic,
    }
}

fn enrollment() -> Enrollment {
    Enrollment {
        id: 3,
        course_id: Some(12),
        course_section_id: None,
        user_id: None,
        enrollment_state: None,
        enrollment_type: None,
        role: None,
        role_id: None,
        created_at: None,
        updated_at: None,
        start_at: None,
        end_at: None,
        last_activity_at: None,
        html_url: None,
        grades: None,
        requester: req(),
    }
}

#[test]
fn enrollment_deactivate_checks_the_task() {
    let e = enrollment();
    let q = e.deactivate("conclude").unwrap();
    assert_eq!(q.method, Method::Delete);
    assert_eq!(q.url, "https://canvas.example.edu/api/v1/courses/12/enrollments/3");
    assert!(matches!(q.payload, Payload::Query(ref p) if p == &vec![("task".to_string(), "conclude".to_string())]));
    assert_eq!(
        bad_request(e.deactivate("expel").unwrap_err()),
        "expel is not a valid task. Use one of: conclude, delete, inactivate, deactivate"
    );
}

#[test]
fn enrollment_accept_answer() {
    assert!(Enrollment::succeeded(&obj(vec![("success", JsonValue::Bool(true))])));
    assert!(!Enrollment::succeeded(&obj(vec![("success", text("true"))])));
    assert!(!Enrollment::succeeded(&JsonValue::Null));
}

#[test]
fn entry_rating_is_checked_before_the_context() {
    let none = entry(None, None, None);
    assert_eq!(bad_request(none.rate(2).unwrap_err()), "rating must be 0 or 1");
    assert_eq!(bad_request(none.rate(1).unwrap_err()), "DiscussionEntry has no course_id or group_id");
    assert_eq!(bad_request(entry(Some(1), None, None).rate(0).unwrap_err()), "DiscussionEntry has no topic_id");
    let q = entry(None, Some(4), Some(5)).rate(1).unwrap();
    assert_eq!(q.method, Method::Post);
    assert_eq!(q.url, "https://canvas.example.edu/api/v1/groups/4/discussion_topics/5/entries/9/rating");
    assert!(matches!(q.payload, Payload::Form(ref p) if p == &vec![("rating".to_string(), "1".to_string())]));
}

#[test]
fn entry_replies_take_the_entry_context() {
    let mut s = entry(Some(2), Some(4), None).get_replies();
    match s.next_step() {
        PageStep::Fetch(q) => {
            assert_eq!(q.url, "https://canvas.example.edu/api/v1/courses/2/discussion_topics/0/entries/9/replies");
            assert_eq!(
                q.scope,
                Scope {
                    course_id: Some(Some(2)),
                    group_id: Some(Some(4)),
                    account_id: None,
                    topic_id: Some(Some(0)),
                    module_id: None,
                    gradebook_column_id: None,
                }
            );
        },
        _ => panic!("expected a fetch"),
    }
}

#[test]
fn favorite_remove_needs_type_then_id() {
    let f = Favorite { context_id: None, context_type: None, requester: req() };
    assert_eq!(bad_request(f.remove().unwrap_err()), "Favorite has no context_type");
    let f = Favorite { context_id: None, context_type: Some("course".to_string()), requester: req() };
    assert_eq!(bad_request(f.remove().unwrap_err()), "Favorite has no context_id");
    let f = Favorite { context_id: Some(8), context_type: Some("course".to_string()), requester: req() };
    assert_eq!(f.remove().unwrap().url, "https://canvas.example.edu/api/v1/users/self/favorites/course/8");
}

#[test]
fn migration_issue_path_drops_the_api_prefix() {
    let issue = |url: &str| MigrationIssue {
        id: 6,
        content_migration_url: Some(url.to_string()),
        description: None,
        workflow_state: None,
        fix_issue_html_url: None,
        issue_type: None,
        error_report_html_url: None,
        error_message: None,
        created_at: None,
        updated_at: None,
        requester: req(),
    };
    let q = issue("/api/v1/courses/1/content_migrations/2").update("resolved").unwrap();
    assert_eq!(q.method, Method::Put);
    assert_eq!(q.url, "https://canvas.example.edu/api/v1/courses/1/content_migrations/2/migration_issues/6");
    assert!(matches!(q.payload, Payload::Form(ref p) if p == &vec![("workflow_state".to_string(), "resolved".to_string())]));
    let q = issue("courses/1/content_migrations/2").update("active").unwrap();
    assert_eq!(q.url, "https://canvas.example.edu/api/v1/courses/1/content_migrations/2/migration_issues/6");
}

#[test]
fn feature_flag_path_lowercases_the_context_type() {
    let f = FeatureFlag {
        feature: Some("new_gradebook".to_string()),
        context_type: Some("Course".to_string()),
        context_id: Some(3),
        state: None,
        locked: None,
        transitions: None,
        requester: req(),
    };
    let q = f.delete().unwrap();
    assert_eq!(q.method, Method::Delete);
    assert_eq!(q.url, "https://canvas.example.edu/api/v1/courses/3/features/flags/new_gradebook");
}

#[test]
fn module_item_needs_a_course_and_content() {
    let module = |course: Option<u64>| Module {
        id: 4,
        course_id: course,
        name: None,
        position: None,
        unlock_at: None,
        require_sequential_progress: None,
        prerequisite_module_ids: None,
        items_count: None,
        items_url: None,
        state: None,
        completed_at: None,
        publish_final_grade: None,
        published: None,
        requester: req(),
    };
    let item = |t: &str, content: Option<u64>| CreateModuleItemParams {
        item_type: t.to_string(),
        content_id: content,
        position: None,
        indent: None,
        page_url: None,
        external_url: None,
        new_tab: None,
        published: None,
    };
    assert_eq!(bad_request(module(None).create_module_item(item("Page", Some(1))).unwrap_err()), "Module does not have a course_id");
    assert_eq!(
        bad_request(module(Some(2)).create_module_item(item("Assignment", None)).unwrap_err()),
        "content_id is required for this module item type"
    );
    let q = module(Some(2)).create_module_item(item("SubHeader", None)).unwrap();
    assert_eq!(q.url, "https://canvas.example.edu/api/v1/courses/2/modules/4/items");
    assert!(matches!(q.payload, Payload::Form(ref p) if p == &vec![("module_item[type]".to_string(), "SubHeader".to_string())]));
    assert_eq!(q.scope.module_id, Some(Some(4)));
}

#[test]
fn new_quiz_body_in_name_order() {
    let params = NewQuizParams {
        title: Some("Quiz".to_string()),
        points_possible: Some("10.5".to_string()),
        shuffle_answers: Some(true),
        ..Default::default()
    };
    match params.to_body() {
        JsonValue::Object(m) => {
            let names: Vec<&str> = m.iter().map(|(k, _)| k.as_str()).collect();
            assert_eq!(names, ["points_possible", "shuffle_answers", "title"]);
            assert!(matches!(&m[0].1, JsonValue::Number(JsonNumber::Float(t)) if t == "10.5"));
            assert!(matches!(m[1].1, JsonValue::Bool(true)));
            assert!(matches!(&m[2].1, JsonValue::String(t) if t == "Quiz"));
        },
        _ => panic!("expected an object"),
    }
}

#[test]
fn poll_answers_are_read_from_their_arrays() {
    let answer = obj(vec![("poll_choices", JsonValue::Array(vec![text("first"), text("second")]))]);
    assert!(matches!(PollChoice::choice_of(&answer), Some(JsonValue::String(s)) if s == "first"));
    assert!(Poll::poll_of(&answer).is_none());
    assert!(Poll::poll_of(&obj(vec![("polls", JsonValue::Array(vec![]))])).is_none());
}

#[test]
fn channel_answers() {
    let deleted = obj(vec![("workflow_state", text("deleted"))]);
    assert!(CommunicationChannel::deleted(&deleted));
    assert!(!CommunicationChannel::deleted(&obj(vec![("workflow_state", text("active"))])));
    let cats = obj(vec![("categories", JsonValue::Array(vec![text("a"), JsonValue::Null, text("b")]))]);
    assert_eq!(CommunicationChannel::categories_of(&cats), vec!["a".to_string(), "b".to_string()]);
    assert!(CommunicationChannel::categories_of(&JsonValue::Null).is_empty());
    let prefs = obj(vec![("notification_preferences", JsonValue::Array(vec![text("p")]))]);
    assert_eq!(CommunicationChannel::preferences_of(&prefs).len(), 1);
    assert!(matches!(CommunicationChannel::preference_of(&prefs), Some(JsonValue::String(s)) if s == "p"));
}

#[test]
fn refusals_need_no_requester() {
    let mut e = enrollment();
    e.requester = None;
    assert_eq!(
        bad_request(e.deactivate("suspend").unwrap_err()),
        "suspend is not a valid task. Use one of: conclude, delete, inactivate, deactivate"
    );
    let mut d = entry(None, None, None);
    d.requester = None;
    assert_eq!(bad_request(d.rate(2).unwrap_err()), "rating must be 0 or 1");
    assert_eq!(bad_request(d.rate(0).unwrap_err()), "DiscussionEntry has no course_id or group_id");
    let f = Favorite { context_id: Some(1), context_type: None, requester: None };
    assert_eq!(bad_request(f.remove().unwrap_err()), "Favorite has no context_type");
}

#[test]
fn entries_take_the_topic_context() {
    let topic = DiscussionTopic {
        id: 21,
        course_id: None,
        title: None,
        message: None,
        html_url: None,
        posted_at: None,
        last_reply_at: None,
        require_initial_post: None,
        user_can_see_posts: None,
        discussion_subentry_count: None,
        read_state: None,
        unread_count: None,
        subscribed: None,
        discussion_type: None,
        published: None,
        locked: None,
        pinned: None,
        locked_for_user: None,
        assignment_id: None,
        delayed_post_at: None,
        due_at: None,
        requester: req(),
        course_id_ctx: Some(7),
        group_id: None,
    };
    let q = topic.post_entry(PostEntryParams { message: Some("hi".to_string()) }).unwrap();
    assert_eq!(q.url, "https://canvas.example.edu/api/v1/courses/7/discussion_topics/21/entries");
    let mut e = entry(Some(99), Some(98), None);
    e.adopt(req().unwrap(), &q.scope);
    assert_eq!((e.course_id, e.group_id, e.topic_id), (Some(7), None, Some(21)));
    let r = e.rate(1).unwrap();
    assert_eq!(r.url, "https://canvas.example.edu/api/v1/courses/7/discussion_topics/21/entries/9/rating");
    assert_eq!(topic.get_entries(&[1]).unwrap().scope, q.scope);
}
