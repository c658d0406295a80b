//! The client: the entry point of every call.
use vstd::prelude::*;
use std::sync::Arc;
use crate::error::{CanvasError, Result};
use crate::http::{join_or_base, scoped, share, Method, PayloadView, Request, Requester, Scope};
use crate::json::JsonValue;
use crate::pagination::{lists, PageStream};
use crate::params::{
    add_bool_at, add_text_at, bool_of, concat_upto, entry, lemma_part_in_concat, pairs_view,
    text_of, text_params, text_params_view,
};
use crate::text::{
    bool_text, chars_of, dec, lemma_trim_idempotent, lemma_trim_start_push, occurs_at, push_char,
    push_u64, string_of, trim, trim_bounds, trim_char_end, trim_end, trim_start, u64_to_text,
};
use crate::urls::{join_url, parse_url, url_join, url_join_error, url_parse, url_parse_error};
use crate::graphql::GraphQL;
use crate::resources::account::Account;
use crate::resources::appointment_group::AppointmentGroup;
use crate::resources::appointment_group::AppointmentGroupParams;
use crate::resources::calendar_event::CalendarEvent;
use crate::resources::calendar_event::CalendarEventParams;
use crate::resources::conversation::Conversation;
use crate::resources::conversation::ConversationParams;
use crate::resources::course::Course;
use crate::resources::params::course_params::CreateCourseParams;
use crate::resources::poll::CreatePollParams;
use crate::resources::params::user_params::CreateUserParams;
use crate::resources::planner::PlannerNote;
use crate::resources::planner::PlannerNoteParams;
use crate::resources::planner::PlannerOverride;
use crate::resources::poll::Poll;

verus! {

/// The Canvas LMS API client. All interaction starts here.
pub struct Canvas {
    pub requester: Arc<Requester>,
}

/// `needle` occurs somewhere in `s`.
pub open spec fn contains_text(s: Seq<char>, needle: Seq<char>) -> bool {
    exists|i: int|
        0 <= i && i + needle.len() <= s.len() && #[trigger] s.subrange(i, i + needle.len()) == needle
}

/// The base URL as the client reads it: white space trimmed from both ends, then
/// every trailing `/`.
pub open spec fn base_text(raw: Seq<char>) -> Seq<char> {
    trim_char_end(trim(raw), '/')
}

/// The message of the error for a base URL that names the API path itself.
pub open spec fn api_path_message() -> Seq<char> {
    "base_url should not include /api/v1"@
}

/// What `Canvas::new` answers for `base_url` and `token`.
pub open spec fn client_for(base_url: Seq<char>, token: Seq<char>, r: Result<Canvas>) -> bool {
    let b = base_text(base_url);
    if contains_text(b, "/api/v1"@) {
        r matches Err(CanvasError::ApiError { status, message }) && status == 0 && message@
            == api_path_message()
    } else {
        match url_parse(b.push('/')) {
            None => r matches Err(CanvasError::Url(e)) && e == url_parse_error(b.push('/')),
            Some(root) => match url_join(root, "api/v1/"@) {
                None => r matches Err(CanvasError::Url(e)) && e == url_join_error(root, "api/v1/"@),
                Some(api) => r matches Ok(c) && c.requester.base() == api && c.requester.token()
                    == trim(token) && c.requester.nq_root() == join_or_base(api, "../quiz/v1/"@)
                    && c.requester.graphql_endpoint() == join_or_base(api, "../graphql"@),
            },
        }
    }
}

/// Whether `needle` occurs in `v`.
fn contains_chars(v: &Vec<char>, needle: &Vec<char>) -> (b: bool)
    ensures
        b == contains_text(v@, needle@),
{
    let end = v.len();
    if needle.len() > end {
        return false;
    }
    let last = end - needle.len();
    let mut i: usize = 0;
    while i < last
        invariant
            i <= last,
            last + needle@.len() == end == v@.len(),
            forall|k: int| 0 <= k < i ==> #[trigger] v@.subrange(k, k + needle@.len()) != needle@,
        decreases last - i,
    {
        if occurs_at(v, end, i, needle) {
            return true;
        }
        i = i + 1;
    }
    occurs_at(v, end, last, needle)
}

/// The base URL as the client reads it (`base_text`).
fn base_of(raw: &str) -> (s: String)
    ensures
        s@ == base_text(raw@),
{
    let v = chars_of(raw);
    let (a, b0) = trim_bounds(&v, 0, v.len());
    assert(v@.subrange(0, v@.len() as int) =~= v@);
    let mut b = b0;
    while b > a && v[b - 1] == '/'
        invariant
            a <= b <= b0 <= v@.len(),
            trim_char_end(v@.subrange(a as int, b0 as int), '/') == trim_char_end(
                v@.subrange(a as int, b as int),
                '/',
            ),
        decreases b - a,
    {
        let ghost t = v@.subrange(a as int, b as int);
        assert(t.subrange(0, t.len() - 1) =~= v@.subrange(a as int, b - 1));
        b = b - 1;
    }
    string_of(&v, a, b)
}

/// `s` with white space trimmed from both ends.
fn trimmed(s: &str) -> (t: String)
    ensures
        t@ == trim(s@),
{
    let v = chars_of(s);
    let (a, b) = trim_bounds(&v, 0, v.len());
    assert(v@.subrange(0, v@.len() as int) =~= v@);
    string_of(&v, a, b)
}

impl Canvas {
    /// Create a new Canvas client.
    ///
    /// `base_url` should be the institution root (e.g. `https://canvas.example.edu`),
    /// not including `/api/v1`: white space around it and trailing `/` are
    /// dropped, and a base URL that still holds `/api/v1` is refused with an
    /// `ApiError` of status 0. The API root is `api/v1/` below it; the token is
    /// sent trimmed.
    pub fn new(base_url: &str, access_token: &str) -> (r: Result<Canvas>)
        ensures
            client_for(base_url@, access_token@, r),
    {
        let root = match validate_base_url(base_url) {
            Ok(u) => u,
            Err(e) => return Err(e),
        };
        let api = match join_url(root.as_str(), "api/v1/") {
            Ok(u) => u,
            Err(e) => return Err(CanvasError::Url(e)),
        };
        let token = trimmed(access_token);
        Ok(Canvas { requester: Arc::new(Requester::new(api, token)) })
    }
}

/// What the base URL `raw` stands for: the institution root as a parsed URL
/// (see [`base_text`]), or the error for a base URL that names the API path or
/// does not parse.
pub open spec fn base_root(raw: Seq<char>, r: Result<String>) -> bool {
    let b = base_text(raw);
    if contains_text(b, "/api/v1"@) {
        r matches Err(CanvasError::ApiError { status, message }) && status == 0 && message@
            == api_path_message()
    } else {
        match url_parse(b.push('/')) {
            None => r matches Err(CanvasError::Url(e)) && e == url_parse_error(b.push('/')),
            Some(root) => r matches Ok(u) && u@ == root,
        }
    }
}

fn validate_base_url(raw: &str) -> (r: Result<String>)
    ensures
        base_root(raw@, r),
{
    let base = base_of(raw);
    let bv = chars_of(base.as_str());
    let needle = chars_of("/api/v1");
    if contains_chars(&bv, &needle) {
        return Err(
            CanvasError::ApiError { status: 0, message: "base_url should not include /api/v1".to_owned() },
        );
    }
    let mut with_slash = base.clone();
    push_char(&mut with_slash, '/');
    match parse_url(with_slash.as_str()) {
        Ok(u) => Ok(u),
        Err(e) => Err(CanvasError::Url(e)),
    }
}

/// A user: by id, or the authenticated user.
#[derive(Debug, Clone, Copy, PartialEq, Eq)]
pub enum UserId {
    Id(u64),
    Current,
}

impl UserId {
    /// The path segment naming the user: the id in decimal, or `self`.
    pub open spec fn segment(self) -> Seq<char> {
        match self {
            UserId::Id(n) => dec(n as nat),
            UserId::Current => "self"@,
        }
    }

    /// The path segment naming the user.
    pub fn to_path_segment(&self) -> (s: String)
        ensures
            s@ == self.segment(),
    {
        match self {
            UserId::Id(n) => crate::text::u64_to_text(*n),
            UserId::Current => "self".to_owned(),
        }
    }
}

impl Canvas {
    /// Fetch a single user by ID or `UserId::Current` for the authenticated user.
    ///
    /// # Canvas API
    /// `GET /api/v1/users/:id`
    pub fn get_user(&self, user_id: UserId) -> (r: Result<Request>)
        ensures
            self.requester.sends_scoped(r, Method::Get, "users/"@ + user_id.segment(), PayloadView::Query(seq![]), Scope::none()),
    {
        let mut endpoint = "users/".to_owned();
        let seg = user_id.to_path_segment();
        endpoint.append(seg.as_str());
        let form: Vec<(String, String)> = Vec::new();
        assert(pairs_view(form@) =~= seq![]);
        scoped(self.requester.get(endpoint.as_str(), form), Scope::empty())
    }
}

/// The form of a new conversation: one `recipients[]` per recipient, `body`,
/// then `subject`, `force_new`, `group_conversation` and `context_code`, each
/// when set.
pub open spec fn conversation_form(recipients: Seq<&str>, body: Seq<char>, params: ConversationParams) -> Seq<
    (Seq<char>, Seq<char>),
> {
    text_params_view("recipients[]"@, recipients) + seq![("body"@, body)] + entry(
        "subject"@,
        text_of(params.subject),
    ) + entry("force_new"@, bool_of(params.force_new)) + entry(
        "group_conversation"@,
        bool_of(params.group_conversation),
    ) + entry("context_code"@, text_of(params.context_code))
}

/// What a created conversation is read from: the first element when Canvas
/// answers with a non-empty array, else the response itself.
pub open spec fn created_conversation(response: JsonValue) -> JsonValue {
    match response {
        JsonValue::Array(items) => if items@.len() > 0 {
            items@[0]
        } else {
            response
        },
        _ => response,
    }
}

impl Canvas {
    /// Create a new conversation.
    ///
    /// What Canvas answers is read with [`Self::created_conversation`].
    ///
    /// # Canvas API
    /// `POST /api/v1/conversations`
    pub fn create_conversation(&self, recipients: &[&str], body: &str, params: ConversationParams) -> (r:
        Result<Request>)
        ensures
            self.requester.sends_scoped(
                r,
                Method::Post,
                "conversations"@,
                PayloadView::Form(conversation_form(recipients@, body@, params)),
                Scope::none(),
            ),
    {
        let mut form = text_params("recipients[]", recipients);
        let ghost before = pairs_view(form@);
        form.push(("body".to_owned(), body.to_owned()));
        assert(pairs_view(form@) =~= before + seq![("body"@, body@)]);
        add_text_at(&mut form, "subject", &params.subject);
        add_bool_at(&mut form, "force_new", params.force_new);
        add_bool_at(&mut form, "group_conversation", params.group_conversation);
        add_text_at(&mut form, "context_code", &params.context_code);
        scoped(self.requester.post("conversations", form), Scope::empty())
    }

    /// The conversation in Canvas's answer to [`Self::create_conversation`]:
    /// the first element of an array, or the answer itself.
    pub fn created_conversation(response: &JsonValue) -> (c: &JsonValue)
        ensures
            *c == created_conversation(*response),
    {
        match response {
            JsonValue::Array(items) => if items.len() > 0 {
                &items[0]
            } else {
                response
            },
            _ => response,
        }
    }

    /// Create a new calendar event.
    ///
    /// # Canvas API
    /// `POST /api/v1/calendar_events`
    pub fn create_calendar_event(&self, context_code: &str, params: CalendarEventParams) -> (r: Result<
        Request,
    >)
        ensures
            self.requester.sends_scoped(
                r,
                Method::Post,
                "calendar_events"@,
                PayloadView::Form(
                    params.form_view("calendar_event"@) + seq![("calendar_event[context_code]"@, context_code@)],
                ),
                Scope::none(),
            ),
    {
        let mut form = params.to_form("calendar_event");
        let ghost before = pairs_view(form@);
        form.push(("calendar_event[context_code]".to_owned(), context_code.to_owned()));
        assert(pairs_view(form@) =~= before + seq![("calendar_event[context_code]"@, context_code@)]);
        scoped(self.requester.post("calendar_events", form), Scope::empty())
    }

    /// Create a planner note for the authenticated user.
    ///
    /// # Canvas API
    /// `POST /api/v1/planner_notes`
    pub fn create_planner_note(&self, params: PlannerNoteParams) -> (r: Result<Request>)
        ensures
            self.requester.sends_scoped(
                r,
                Method::Post,
                "planner_notes"@,
                PayloadView::Form(params.note_form_view()),
                Scope::none(),
            ),
    {
        let form = params.to_note_form();
        scoped(self.requester.post("planner_notes", form), Scope::empty())
    }
}

impl Canvas {
    /// A [`GraphQL`] client for this Canvas instance, sharing its requester.
    pub fn graphql(&self) -> (g: GraphQL)
        ensures
            g.requester == self.requester,
    {
        GraphQL { requester: share(&self.requester) }
    }
}

/// The base URL is read the same way with or without white space around it;
/// and, unless it ends in white space (after leading white space is dropped),
/// one more `/` at its end makes no difference. So `Canvas::new` answers the
/// same for `https://canvas.example.edu`, `https://canvas.example.edu/` and
/// ` https://canvas.example.edu `.
pub proof fn lemma_base_url_normalized(raw: Seq<char>, token: Seq<char>, r: Result<Canvas>)
    ensures
        base_text(trim(raw)) == base_text(raw),
        client_for(trim(raw), token, r) == client_for(raw, token, r),
        trim(raw) == trim_start(raw) ==> base_text(raw.push('/')) == base_text(raw),
        trim(raw) == trim_start(raw) ==> client_for(raw.push('/'), token, r) == client_for(raw, token, r),
{
    lemma_trim_idempotent(raw);
    if trim(raw) == trim_start(raw) {
        let t = trim_start(raw);
        lemma_trim_start_push(raw, '/');
        assert(trim_end(t.push('/')) == t.push('/'));
        assert(trim(raw.push('/')) == t.push('/'));
        assert(t.push('/').subrange(0, t.push('/').len() - 1) =~= t);
        assert(trim_char_end(t.push('/'), '/') == trim_char_end(t, '/'));
    }
}

/// Base URLs that read the same (equal once white space around them and
/// trailing `/` are dropped, such as `https://c.edu` and `  https://c.edu// `)
/// get the same answer from `Canvas::new`, whatever the token.
pub proof fn lemma_same_base_same_answer(raw1: Seq<char>, raw2: Seq<char>, token: Seq<char>, r: Result<Canvas>)
    requires
        trim_char_end(trim(raw1), '/') == trim_char_end(trim(raw2), '/'),
    ensures
        client_for(raw1, token, r) == client_for(raw2, token, r),
{
}

/// A new conversation's form begins with one `recipients[]` per recipient, in
/// the order given, followed by the message as `body`; each of `subject`,
/// `force_new`, `group_conversation` and `context_code` that is set is sent
/// under its name (flags as `true`/`false`).
pub proof fn lemma_conversation_form_members(recipients: Seq<&str>, body: Seq<char>, params: ConversationParams)
    ensures
        forall|i: int| 0 <= i < recipients.len() ==> #[trigger] conversation_form(recipients, body, params)[i] == (
        "recipients[]"@, recipients[i]@),
        conversation_form(recipients, body, params)[recipients.len() as int] == ("body"@, body),
        params.subject is Some ==> conversation_form(recipients, body, params).contains(("subject"@, params.subject.unwrap()@)),
        params.force_new is Some ==> conversation_form(recipients, body, params).contains(("force_new"@, bool_text(params.force_new.unwrap()))),
        params.group_conversation is Some ==> conversation_form(recipients, body, params).contains(("group_conversation"@, bool_text(params.group_conversation.unwrap()))),
        params.context_code is Some ==> conversation_form(recipients, body, params).contains(("context_code"@, params.context_code.unwrap()@)),
{
    let form = conversation_form(recipients, body, params);
    let parts = seq![
        text_params_view("recipients[]"@, recipients),
        seq![("body"@, body)],
        entry("subject"@, text_of(params.subject)),
        entry("force_new"@, bool_of(params.force_new)),
        entry("group_conversation"@, bool_of(params.group_conversation)),
        entry("context_code"@, text_of(params.context_code)),
    ];
    assert(form =~= concat_upto(parts, 6)) by {
        reveal_with_fuel(concat_upto, 7);
    }
    let head = text_params_view("recipients[]"@, recipients);
    assert(head.len() == recipients.len());
    assert forall|i: int| 0 <= i < recipients.len() implies #[trigger] form[i] == ("recipients[]"@, recipients[i]@) by {
        assert(form[i] == head[i]);
    }
    assert(form[recipients.len() as int] == ("body"@, body));
    if params.subject is Some {
        assert(parts[2][0] == ("subject"@, params.subject.unwrap()@));
        lemma_part_in_concat(parts, 6, 2, ("subject"@, params.subject.unwrap()@));
    }
    if params.force_new is Some {
        assert(parts[3][0] == ("force_new"@, bool_text(params.force_new.unwrap())));
        lemma_part_in_concat(parts, 6, 3, ("force_new"@, bool_text(params.force_new.unwrap())));
    }
    if params.group_conversation is Some {
        assert(parts[4][0] == ("group_conversation"@, bool_text(params.group_conversation.unwrap())));
        lemma_part_in_concat(parts, 6, 4, ("group_conversation"@, bool_text(params.group_conversation.unwrap())));
    }
    if params.context_code is Some {
        assert(parts[5][0] == ("context_code"@, params.context_code.unwrap()@));
        lemma_part_in_concat(parts, 6, 5, ("context_code"@, params.context_code.unwrap()@));
    }
}


impl Canvas {
    /// Fetch a single course by ID.
    ///
    /// # Canvas API
    /// `GET /api/v1/courses/:id`
    pub fn get_course(&self, course_id: u64) -> (r: Result<Request>)
        ensures
            self.requester.sends_scoped(
                r,
                Method::Get,
                "courses/"@ + dec(course_id as nat),
                PayloadView::Query(seq![]),
                Scope::none(),
            ),
    {
        let mut endpoint = String::new();
        endpoint.append("courses/");
        push_u64(&mut endpoint, course_id);
        assert(endpoint@ =~= "courses/"@ + dec(course_id as nat));
        let form: Vec<(String, String)> = Vec::new();
        assert(pairs_view(form@) =~= seq![]);
        scoped(self.requester.get(endpoint.as_str(), form), Scope::empty())
    }

    /// Stream all courses visible to the authenticated user.
    ///
    /// # Canvas API
    /// `GET /api/v1/courses`
    pub fn get_courses(&self) -> (s: PageStream<Course>)
        ensures
            lists(s, *self.requester, self.requester.base(), "courses"@, seq![], Scope::none()),
    {
        let mut endpoint = String::new();
        endpoint.append("courses");
        assert(endpoint@ =~= "courses"@);
        let form: Vec<(String, String)> = Vec::new();
        assert(pairs_view(form@) =~= seq![]);
        PageStream::new(share(&self.requester), endpoint.as_str(), form).with_scope(Scope::empty())
    }

    /// Create a new course under an account.
    ///
    /// # Canvas API
    /// `POST /api/v1/accounts/:account_id/courses`
    pub fn create_course(&self, account_id: u64, params: CreateCourseParams) -> (r: Result<Request>)
        ensures
            self.requester.sends_scoped(
                r,
                Method::Post,
                "accounts/"@ + dec(account_id as nat) + "/courses"@,
                PayloadView::Form(params.form_view("course"@)),
                Scope::none(),
            ),
    {
        let mut endpoint = String::new();
        endpoint.append("accounts/");
        push_u64(&mut endpoint, account_id);
        endpoint.append("/courses");
        assert(endpoint@ =~= "accounts/"@ + dec(account_id as nat) + "/courses"@);
        let form: Vec<(String, String)> = params.to_form("course");
        assert(pairs_view(form@) =~= params.form_view("course"@));
        scoped(self.requester.post(endpoint.as_str(), form), Scope::empty())
    }

    /// Delete a course by ID. Canvas returns the deleted course object.
    ///
    /// # Canvas API
    /// `DELETE /api/v1/courses/:id`
    pub fn delete_course(&self, course_id: u64) -> (r: Result<Request>)
        ensures
            self.requester.sends_scoped(
                r,
                Method::Delete,
                "courses/"@ + dec(course_id as nat),
                PayloadView::Query(seq![("event"@, "delete"@)]),
                Scope::none(),
            ),
    {
        let mut endpoint = String::new();
        endpoint.append("courses/");
        push_u64(&mut endpoint, course_id);
        assert(endpoint@ =~= "courses/"@ + dec(course_id as nat));
        let form: Vec<(String, String)> = vec![("event".to_owned(), "delete".to_owned())];
        assert(pairs_view(form@) =~= seq![("event"@, "delete"@)]);
        scoped(self.requester.delete(endpoint.as_str(), form), Scope::empty())
    }

    /// Fetch the currently authenticated user.
    ///
    /// # Canvas API
    /// `GET /api/v1/users/self`
    pub fn get_current_user(&self) -> (r: Result<Request>)
        ensures
            self.requester.sends_scoped(
                r,
                Method::Get,
                "users/self"@,
                PayloadView::Query(seq![]),
                Scope::none(),
            ),
    {
        let mut endpoint = String::new();
        endpoint.append("users/self");
        assert(endpoint@ =~= "users/self"@);
        let form: Vec<(String, String)> = Vec::new();
        assert(pairs_view(form@) =~= seq![]);
        scoped(self.requester.get(endpoint.as_str(), form), Scope::empty())
    }

    /// Create a new user under an account.
    ///
    /// # Canvas API
    /// `POST /api/v1/accounts/:account_id/users`
    pub fn create_user(&self, account_id: u64, params: CreateUserParams) -> (r: Result<Request>)
        ensures
            self.requester.sends_scoped(
                r,
                Method::Post,
                "accounts/"@ + dec(account_id as nat) + "/users"@,
                PayloadView::Form(params.form_view("user"@)),
                Scope::none(),
            ),
    {
        let mut endpoint = String::new();
        endpoint.append("accounts/");
        push_u64(&mut endpoint, account_id);
        endpoint.append("/users");
        assert(endpoint@ =~= "accounts/"@ + dec(account_id as nat) + "/users"@);
        let form: Vec<(String, String)> = params.to_form("user");
        assert(pairs_view(form@) =~= params.form_view("user"@));
        scoped(self.requester.post(endpoint.as_str(), form), Scope::empty())
    }

    /// Fetch a single account by ID.
    ///
    /// # Canvas API
    /// `GET /api/v1/accounts/:id`
    pub fn get_account(&self, account_id: u64) -> (r: Result<Request>)
        ensures
            self.requester.sends_scoped(
                r,
                Method::Get,
                "accounts/"@ + dec(account_id as nat),
                PayloadView::Query(seq![]),
                Scope::none(),
            ),
    {
        let mut endpoint = String::new();
        endpoint.append("accounts/");
        push_u64(&mut endpoint, account_id);
        assert(endpoint@ =~= "accounts/"@ + dec(account_id as nat));
        let form: Vec<(String, String)> = Vec::new();
        assert(pairs_view(form@) =~= seq![]);
        scoped(self.requester.get(endpoint.as_str(), form), Scope::empty())
    }

    /// Fetch a single outcome by ID.
    ///
    /// # Canvas API
    /// `GET /api/v1/outcomes/:id`
    pub fn get_outcome(&self, outcome_id: u64) -> (r: Result<Request>)
        ensures
            self.requester.sends_scoped(
                r,
                Method::Get,
                "outcomes/"@ + dec(outcome_id as nat),
                PayloadView::Query(seq![]),
                Scope::none(),
            ),
    {
        let mut endpoint = String::new();
        endpoint.append("outcomes/");
        push_u64(&mut endpoint, outcome_id);
        assert(endpoint@ =~= "outcomes/"@ + dec(outcome_id as nat));
        let form: Vec<(String, String)> = Vec::new();
        assert(pairs_view(form@) =~= seq![]);
        scoped(self.requester.get(endpoint.as_str(), form), Scope::empty())
    }

    /// Stream all accounts accessible to the authenticated user.
    ///
    /// # Canvas API
    /// `GET /api/v1/accounts`
    pub fn get_accounts(&self) -> (s: PageStream<Account>)
        ensures
            lists(s, *self.requester, self.requester.base(), "accounts"@, seq![], Scope::none()),
    {
        let mut endpoint = String::new();
        endpoint.append("accounts");
        assert(endpoint@ =~= "accounts"@);
        let form: Vec<(String, String)> = Vec::new();
        assert(pairs_view(form@) =~= seq![]);
        PageStream::new(share(&self.requester), endpoint.as_str(), form).with_scope(Scope::empty())
    }

    /// Fetch a single section by ID.
    ///
    /// # Canvas API
    /// `GET /api/v1/sections/:id`
    pub fn get_section(&self, section_id: u64) -> (r: Result<Request>)
        ensures
            self.requester.sends_scoped(
                r,
                Method::Get,
                "sections/"@ + dec(section_id as nat),
                PayloadView::Query(seq![]),
                Scope::none(),
            ),
    {
        let mut endpoint = String::new();
        endpoint.append("sections/");
        push_u64(&mut endpoint, section_id);
        assert(endpoint@ =~= "sections/"@ + dec(section_id as nat));
        let form: Vec<(String, String)> = Vec::new();
        assert(pairs_view(form@) =~= seq![]);
        scoped(self.requester.get(endpoint.as_str(), form), Scope::empty())
    }

    /// Fetch a single group by ID.
    ///
    /// # Canvas API
    /// `GET /api/v1/groups/:id`
    pub fn get_group(&self, group_id: u64) -> (r: Result<Request>)
        ensures
            self.requester.sends_scoped(
                r,
                Method::Get,
                "groups/"@ + dec(group_id as nat),
                PayloadView::Query(seq![]),
                Scope::none(),
            ),
    {
        let mut endpoint = String::new();
        endpoint.append("groups/");
        push_u64(&mut endpoint, group_id);
        assert(endpoint@ =~= "groups/"@ + dec(group_id as nat));
        let form: Vec<(String, String)> = Vec::new();
        assert(pairs_view(form@) =~= seq![]);
        scoped(self.requester.get(endpoint.as_str(), form), Scope::empty())
    }

    /// Fetch a single file by ID.
    ///
    /// # Canvas API
    /// `GET /api/v1/files/:id`
    pub fn get_file(&self, file_id: u64) -> (r: Result<Request>)
        ensures
            self.requester.sends_scoped(
                r,
                Method::Get,
                "files/"@ + dec(file_id as nat),
                PayloadView::Query(seq![]),
                Scope::none(),
            ),
    {
        let mut endpoint = String::new();
        endpoint.append("files/");
        push_u64(&mut endpoint, file_id);
        assert(endpoint@ =~= "files/"@ + dec(file_id as nat));
        let form: Vec<(String, String)> = Vec::new();
        assert(pairs_view(form@) =~= seq![]);
        scoped(self.requester.get(endpoint.as_str(), form), Scope::empty())
    }

    /// Fetch a single folder by ID.
    ///
    /// # Canvas API
    /// `GET /api/v1/folders/:id`
    pub fn get_folder(&self, folder_id: u64) -> (r: Result<Request>)
        ensures
            self.requester.sends_scoped(
                r,
                Method::Get,
                "folders/"@ + dec(folder_id as nat),
                PayloadView::Query(seq![]),
                Scope::none(),
            ),
    {
        let mut endpoint = String::new();
        endpoint.append("folders/");
        push_u64(&mut endpoint, folder_id);
        assert(endpoint@ =~= "folders/"@ + dec(folder_id as nat));
        let form: Vec<(String, String)> = Vec::new();
        assert(pairs_view(form@) =~= seq![]);
        scoped(self.requester.get(endpoint.as_str(), form), Scope::empty())
    }

    /// Fetch a single progress object by ID.
    ///
    /// # Canvas API
    /// `GET /api/v1/progress/:id`
    pub fn get_progress(&self, progress_id: u64) -> (r: Result<Request>)
        ensures
            self.requester.sends_scoped(
                r,
                Method::Get,
                "progress/"@ + dec(progress_id as nat),
                PayloadView::Query(seq![]),
                Scope::none(),
            ),
    {
        let mut endpoint = String::new();
        endpoint.append("progress/");
        push_u64(&mut endpoint, progress_id);
        assert(endpoint@ =~= "progress/"@ + dec(progress_id as nat));
        let form: Vec<(String, String)> = Vec::new();
        assert(pairs_view(form@) =~= seq![]);
        scoped(self.requester.get(endpoint.as_str(), form), Scope::empty())
    }

    /// Fetch a single conversation by ID.
    ///
    /// # Canvas API
    /// `GET /api/v1/conversations/:id`
    pub fn get_conversation(&self, conversation_id: u64) -> (r: Result<Request>)
        ensures
            self.requester.sends_scoped(
                r,
                Method::Get,
                "conversations/"@ + dec(conversation_id as nat),
                PayloadView::Query(seq![]),
                Scope::none(),
            ),
    {
        let mut endpoint = String::new();
        endpoint.append("conversations/");
        push_u64(&mut endpoint, conversation_id);
        assert(endpoint@ =~= "conversations/"@ + dec(conversation_id as nat));
        let form: Vec<(String, String)> = Vec::new();
        assert(pairs_view(form@) =~= seq![]);
        scoped(self.requester.get(endpoint.as_str(), form), Scope::empty())
    }

    /// Stream all conversations for the authenticated user.
    ///
    /// # Canvas API
    /// `GET /api/v1/conversations`
    pub fn get_conversations(&self) -> (s: PageStream<Conversation>)
        ensures
            lists(s, *self.requester, self.requester.base(), "conversations"@, seq![], Scope::none()),
    {
        let mut endpoint = String::new();
        endpoint.append("conversations");
        assert(endpoint@ =~= "conversations"@);
        let form: Vec<(String, String)> = Vec::new();
        assert(pairs_view(form@) =~= seq![]);
        PageStream::new(share(&self.requester), endpoint.as_str(), form).with_scope(Scope::empty())
    }

    /// Fetch a single calendar event by ID.
    ///
    /// # Canvas API
    /// `GET /api/v1/calendar_events/:id`
    pub fn get_calendar_event(&self, event_id: u64) -> (r: Result<Request>)
        ensures
            self.requester.sends_scoped(
                r,
                Method::Get,
                "calendar_events/"@ + dec(event_id as nat),
                PayloadView::Query(seq![]),
                Scope::none(),
            ),
    {
        let mut endpoint = String::new();
        endpoint.append("calendar_events/");
        push_u64(&mut endpoint, event_id);
        assert(endpoint@ =~= "calendar_events/"@ + dec(event_id as nat));
        let form: Vec<(String, String)> = Vec::new();
        assert(pairs_view(form@) =~= seq![]);
        scoped(self.requester.get(endpoint.as_str(), form), Scope::empty())
    }

    /// Stream all calendar events visible to the authenticated user.
    ///
    /// # Canvas API
    /// `GET /api/v1/calendar_events`
    pub fn get_calendar_events(&self) -> (s: PageStream<CalendarEvent>)
        ensures
            lists(s, *self.requester, self.requester.base(), "calendar_events"@, seq![], Scope::none()),
    {
        let mut endpoint = String::new();
        endpoint.append("calendar_events");
        assert(endpoint@ =~= "calendar_events"@);
        let form: Vec<(String, String)> = Vec::new();
        assert(pairs_view(form@) =~= seq![]);
        PageStream::new(share(&self.requester), endpoint.as_str(), form).with_scope(Scope::empty())
    }

    /// Fetch a single planner note by ID.
    ///
    /// # Canvas API
    /// `GET /api/v1/planner_notes/:id`
    pub fn get_planner_note(&self, note_id: u64) -> (r: Result<Request>)
        ensures
            self.requester.sends_scoped(
                r,
                Method::Get,
                "planner_notes/"@ + dec(note_id as nat),
                PayloadView::Query(seq![]),
                Scope::none(),
            ),
    {
        let mut endpoint = String::new();
        endpoint.append("planner_notes/");
        push_u64(&mut endpoint, note_id);
        assert(endpoint@ =~= "planner_notes/"@ + dec(note_id as nat));
        let form: Vec<(String, String)> = Vec::new();
        assert(pairs_view(form@) =~= seq![]);
        scoped(self.requester.get(endpoint.as_str(), form), Scope::empty())
    }

    /// Stream all planner notes for the authenticated user.
    ///
    /// # Canvas API
    /// `GET /api/v1/planner_notes`
    pub fn get_planner_notes(&self) -> (s: PageStream<PlannerNote>)
        ensures
            lists(s, *self.requester, self.requester.base(), "planner_notes"@, seq![], Scope::none()),
    {
        let mut endpoint = String::new();
        endpoint.append("planner_notes");
        assert(endpoint@ =~= "planner_notes"@);
        let form: Vec<(String, String)> = Vec::new();
        assert(pairs_view(form@) =~= seq![]);
        PageStream::new(share(&self.requester), endpoint.as_str(), form).with_scope(Scope::empty())
    }

    /// Fetch a single planner override by ID.
    ///
    /// # Canvas API
    /// `GET /api/v1/planner/overrides/:id`
    pub fn get_planner_override(&self, override_id: u64) -> (r: Result<Request>)
        ensures
            self.requester.sends_scoped(
                r,
                Method::Get,
                "planner/overrides/"@ + dec(override_id as nat),
                PayloadView::Query(seq![]),
                Scope::none(),
            ),
    {
        let mut endpoint = String::new();
        endpoint.append("planner/overrides/");
        push_u64(&mut endpoint, override_id);
        assert(endpoint@ =~= "planner/overrides/"@ + dec(override_id as nat));
        let form: Vec<(String, String)> = Vec::new();
        assert(pairs_view(form@) =~= seq![]);
        scoped(self.requester.get(endpoint.as_str(), form), Scope::empty())
    }

    /// Stream all planner overrides for the authenticated user.
    ///
    /// # Canvas API
    /// `GET /api/v1/planner/overrides`
    pub fn get_planner_overrides(&self) -> (s: PageStream<PlannerOverride>)
        ensures
            lists(s, *self.requester, self.requester.base(), "planner/overrides"@, seq![], Scope::none()),
    {
        let mut endpoint = String::new();
        endpoint.append("planner/overrides");
        assert(endpoint@ =~= "planner/overrides"@);
        let form: Vec<(String, String)> = Vec::new();
        assert(pairs_view(form@) =~= seq![]);
        PageStream::new(share(&self.requester), endpoint.as_str(), form).with_scope(Scope::empty())
    }

    /// Create a planner override for a specific plannable item.
    ///
    /// # Canvas API
    /// `POST /api/v1/planner/overrides`
    pub fn create_planner_override(&self, plannable_type: &str, plannable_id: u64) -> (r: Result<Request>)
        ensures
            self.requester.sends_scoped(
                r,
                Method::Post,
                "planner/overrides"@,
                PayloadView::Form(seq![("plannable_type"@, plannable_type@), ("plannable_id"@, dec(plannable_id as nat))]),
                Scope::none(),
            ),
    {
        let mut endpoint = String::new();
        endpoint.append("planner/overrides");
        assert(endpoint@ =~= "planner/overrides"@);
        let form: Vec<(String, String)> = vec![("plannable_type".to_owned(), plannable_type.to_owned()), ("plannable_id".to_owned(), u64_to_text(plannable_id))];
        assert(pairs_view(form@) =~= seq![("plannable_type"@, plannable_type@), ("plannable_id"@, dec(plannable_id as nat))]);
        scoped(self.requester.post(endpoint.as_str(), form), Scope::empty())
    }

    /// Fetch a single ePortfolio by ID.
    ///
    /// # Canvas API
    /// `GET /api/v1/eportfolios/:id`
    pub fn get_eportfolio(&self, eportfolio_id: u64) -> (r: Result<Request>)
        ensures
            self.requester.sends_scoped(
                r,
                Method::Get,
                "eportfolios/"@ + dec(eportfolio_id as nat),
                PayloadView::Query(seq![]),
                Scope::none(),
            ),
    {
        let mut endpoint = String::new();
        endpoint.append("eportfolios/");
        push_u64(&mut endpoint, eportfolio_id);
        assert(endpoint@ =~= "eportfolios/"@ + dec(eportfolio_id as nat));
        let form: Vec<(String, String)> = Vec::new();
        assert(pairs_view(form@) =~= seq![]);
        scoped(self.requester.get(endpoint.as_str(), form), Scope::empty())
    }

    /// Fetch a single appointment group by ID.
    ///
    /// # Canvas API
    /// `GET /api/v1/appointment_groups/:id`
    pub fn get_appointment_group(&self, group_id: u64) -> (r: Result<Request>)
        ensures
            self.requester.sends_scoped(
                r,
                Method::Get,
                "appointment_groups/"@ + dec(group_id as nat),
                PayloadView::Query(seq![]),
                Scope::none(),
            ),
    {
        let mut endpoint = String::new();
        endpoint.append("appointment_groups/");
        push_u64(&mut endpoint, group_id);
        assert(endpoint@ =~= "appointment_groups/"@ + dec(group_id as nat));
        let form: Vec<(String, String)> = Vec::new();
        assert(pairs_view(form@) =~= seq![]);
        scoped(self.requester.get(endpoint.as_str(), form), Scope::empty())
    }

    /// Stream all appointment groups visible to the authenticated user.
    ///
    /// # Canvas API
    /// `GET /api/v1/appointment_groups`
    pub fn get_appointment_groups(&self) -> (s: PageStream<AppointmentGroup>)
        ensures
            lists(s, *self.requester, self.requester.base(), "appointment_groups"@, seq![], Scope::none()),
    {
        let mut endpoint = String::new();
        endpoint.append("appointment_groups");
        assert(endpoint@ =~= "appointment_groups"@);
        let form: Vec<(String, String)> = Vec::new();
        assert(pairs_view(form@) =~= seq![]);
        PageStream::new(share(&self.requester), endpoint.as_str(), form).with_scope(Scope::empty())
    }

    /// Create a new appointment group.
    ///
    /// # Canvas API
    /// `POST /api/v1/appointment_groups`
    pub fn create_appointment_group(&self, params: AppointmentGroupParams) -> (r: Result<Request>)
        ensures
            self.requester.sends_scoped(
                r,
                Method::Post,
                "appointment_groups"@,
                PayloadView::Form(params.form_view("appointment_group"@)),
                Scope::none(),
            ),
    {
        let mut endpoint = String::new();
        endpoint.append("appointment_groups");
        assert(endpoint@ =~= "appointment_groups"@);
        let form: Vec<(String, String)> = params.to_form("appointment_group");
        assert(pairs_view(form@) =~= params.form_view("appointment_group"@));
        scoped(self.requester.post(endpoint.as_str(), form), Scope::empty())
    }

    /// Fetch a single poll by ID.
    ///
    /// What Canvas answers is read with [`Poll::poll_of`].
    ///
    /// # Canvas API
    /// `GET /api/v1/polls/:id`
    pub fn get_poll(&self, poll_id: u64) -> (r: Result<Request>)
        ensures
            self.requester.sends_scoped(
                r,
                Method::Get,
                "polls/"@ + dec(poll_id as nat),
                PayloadView::Query(seq![]),
                Scope::none(),
            ),
    {
        let mut endpoint = String::new();
        endpoint.append("polls/");
        push_u64(&mut endpoint, poll_id);
        assert(endpoint@ =~= "polls/"@ + dec(poll_id as nat));
        let form: Vec<(String, String)> = Vec::new();
        assert(pairs_view(form@) =~= seq![]);
        scoped(self.requester.get(endpoint.as_str(), form), Scope::empty())
    }

    /// Stream all polls for the current user.
    ///
    /// # Canvas API
    /// `GET /api/v1/polls`
    pub fn get_polls(&self) -> (s: PageStream<Poll>)
        ensures
            lists(s, *self.requester, self.requester.base(), "polls"@, seq![], Scope::none()),
    {
        let mut endpoint = String::new();
        endpoint.append("polls");
        assert(endpoint@ =~= "polls"@);
        let form: Vec<(String, String)> = Vec::new();
        assert(pairs_view(form@) =~= seq![]);
        PageStream::new(share(&self.requester), endpoint.as_str(), form).with_scope(Scope::empty())
    }

    /// Create a new poll for the current user.
    ///
    /// What Canvas answers is read with [`Poll::poll_of`].
    ///
    /// # Canvas API
    /// `POST /api/v1/polls`
    pub fn create_poll(&self, params: CreatePollParams) -> (r: Result<Request>)
        ensures
            self.requester.sends_scoped(
                r,
                Method::Post,
                "polls"@,
                PayloadView::Form(params.form_view("polls[]"@)),
                Scope::none(),
            ),
    {
        let mut endpoint = String::new();
        endpoint.append("polls");
        assert(endpoint@ =~= "polls"@);
        let form: Vec<(String, String)> = params.to_form("polls[]");
        assert(pairs_view(form@) =~= params.form_view("polls[]"@));
        scoped(self.requester.post(endpoint.as_str(), form), Scope::empty())
    }

    /// Create a short-lived JWT for use with other Canvas services.
    ///
    /// # Canvas API
    /// `POST /api/v1/jwts`
    pub fn create_jwt(&self) -> (r: Result<Request>)
        ensures
            self.requester.sends_scoped(
                r,
                Method::Post,
                "jwts"@,
                PayloadView::Form(seq![]),
                Scope::none(),
            ),
    {
        let mut endpoint = String::new();
        endpoint.append("jwts");
        assert(endpoint@ =~= "jwts"@);
        let form: Vec<(String, String)> = Vec::new();
        assert(pairs_view(form@) =~= seq![]);
        scoped(self.requester.post(endpoint.as_str(), form), Scope::empty())
    }

    /// Refresh an existing JWT, returning a new one.
    ///
    /// # Canvas API
    /// `POST /api/v1/jwts/refresh`
    pub fn refresh_jwt(&self, token: &str) -> (r: Result<Request>)
        ensures
            self.requester.sends_scoped(
                r,
                Method::Post,
                "jwts/refresh"@,
                PayloadView::Form(seq![("jwt"@, token@)]),
                Scope::none(),
            ),
    {
        let mut endpoint = String::new();
        endpoint.append("jwts/refresh");
        assert(endpoint@ =~= "jwts/refresh"@);
        let form: Vec<(String, String)> = vec![("jwt".to_owned(), token.to_owned())];
        assert(pairs_view(form@) =~= seq![("jwt"@, token@)]);
        scoped(self.requester.post(endpoint.as_str(), form), Scope::empty())
    }
}

} // verus!
