//! What goes over the wire: the requester's URLs and credentials, the requests
//! that the client sends, and how a failing response becomes a [`CanvasError`].
use vstd::prelude::*;
use crate::error::{ApiError, CanvasError, CanvasErrorBody};
use crate::json::{get_member, member, JsonValue};
use crate::params::pairs_view;
use crate::urls::{join_url, url_join, url_join_error};
use std::sync::Arc;

verus! {

/// The HTTP method of a request.
#[derive(Debug, Clone, Copy, PartialEq, Eq)]
pub enum Method {
    Get,
    Post,
    Put,
    Delete,
    Patch,
}

/// What a request carries besides its URL.
#[derive(Debug)]
pub enum Payload {
    /// Parameters in the query string.
    Query(Vec<(String, String)>),
    /// Parameters in a form-encoded body.
    Form(Vec<(String, String)>),
    /// A JSON body.
    Json(JsonValue),
    /// Nothing.
    Empty,
}

/// A payload as plain values.
pub enum PayloadView {
    Query(Seq<(Seq<char>, Seq<char>)>),
    Form(Seq<(Seq<char>, Seq<char>)>),
    Json(JsonValue),
    Empty,
}

/// The plain view of a payload.
pub open spec fn payload_view(p: Payload) -> PayloadView {
    match p {
        Payload::Query(ps) => PayloadView::Query(pairs_view(ps@)),
        Payload::Form(ps) => PayloadView::Form(pairs_view(ps@)),
        Payload::Json(v) => PayloadView::Json(v),
        Payload::Empty => PayloadView::Empty,
    }
}

/// The context that the resources of a response take from the object they
/// were fetched through: the ids of the course, group, account, discussion topic,
/// module or gradebook column they belong to. `Some(v)` sets the resource's own
/// value to `v` (which may itself be `None`); `None` leaves it alone.
#[derive(Debug, Clone, Copy, PartialEq, Eq)]
pub struct Scope {
    pub course_id: Option<Option<u64>>,
    pub group_id: Option<Option<u64>>,
    pub account_id: Option<Option<u64>>,
    pub topic_id: Option<Option<u64>>,
    pub module_id: Option<Option<u64>>,
    pub gradebook_column_id: Option<Option<u64>>,
}

impl Scope {
    /// No context at all.
    pub open spec fn none() -> Scope {
        Scope {
            course_id: None,
            group_id: None,
            account_id: None,
            topic_id: None,
            module_id: None,
            gradebook_column_id: None,
        }
    }

    /// No context at all.
    pub fn empty() -> (s: Scope)
        ensures
            s == Scope::none(),
    {
        Scope {
            course_id: None,
            group_id: None,
            account_id: None,
            topic_id: None,
            module_id: None,
            gradebook_column_id: None,
        }
    }

    /// The context of a course: the resources take `id` as their course.
    pub open spec fn of_course(id: u64) -> Scope {
        Scope { course_id: Some(Some(id)), ..Scope::none() }
    }
}

/// A request ready to be sent: method, absolute URL, `Authorization` header value
/// and payload, and the context that the resources in its response receive.
#[derive(Debug)]
pub struct Request {
    pub method: Method,
    pub url: String,
    pub authorization: String,
    pub payload: Payload,
    pub scope: Scope,
}

/// `r`, with its request's scope replaced by `scope`.
pub fn scoped(r: crate::error::Result<Request>, scope: Scope) -> (s: crate::error::Result<Request>)
    ensures
        match r {
            Ok(q) => s matches Ok(p) && p.method == q.method && p.url == q.url && p.authorization == q.authorization
                && p.payload == q.payload && p.scope == scope,
            Err(e) => s == Err::<Request, CanvasError>(e),
        },
{
    match r {
        Ok(q) => Ok(Request { scope, ..q }),
        Err(e) => Err(e),
    }
}

/// Where a Canvas instance answers, and with which token.
#[derive(Debug, Clone)]
pub struct Requester {
    base_url: String,
    new_quizzes_url: String,
    graphql_url: String,
    access_token: String,
}

/// Another handle on the same requester (`Arc::clone`).
#[verifier::external_body]
pub fn share(r: &Arc<Requester>) -> (s: Arc<Requester>)
    ensures
        s == *r,
{
    Arc::clone(r)
}

/// `Bearer <token>`.
pub open spec fn bearer(token: Seq<char>) -> Seq<char> {
    "Bearer "@ + token
}

/// `join(base, input)`, or `base` itself when the join fails.
pub open spec fn join_or_base(base: Seq<char>, input: Seq<char>) -> Seq<char> {
    match url_join(base, input) {
        Some(u) => u,
        None => base,
    }
}

/// A request with the given method, URL, authorization and payload.
pub open spec fn request_is(
    q: Request,
    method: Method,
    url: Seq<char>,
    authorization: Seq<char>,
    payload: PayloadView,
) -> bool {
    &&& q.method == method
    &&& q.url@ == url
    &&& q.authorization@ == authorization
    &&& payload_view(q.payload) == payload
}

/// A request with the given method, URL, authorization, payload and scope.
pub open spec fn request_scoped(
    q: Request,
    method: Method,
    url: Seq<char>,
    authorization: Seq<char>,
    payload: PayloadView,
    scope: Scope,
) -> bool {
    &&& request_is(q, method, url, authorization, payload)
    &&& q.scope == scope
}

impl Requester {
    /// The token that the requester sends.
    pub closed spec fn token(&self) -> Seq<char> {
        self.access_token@
    }

    /// The REST API root, such as `https://canvas.example.edu/api/v1/`.
    pub closed spec fn base(&self) -> Seq<char> {
        self.base_url@
    }

    /// The New Quizzes API root.
    pub closed spec fn nq_root(&self) -> Seq<char> {
        self.new_quizzes_url@
    }

    /// The GraphQL endpoint.
    pub closed spec fn graphql_endpoint(&self) -> Seq<char> {
        self.graphql_url@
    }

    /// The REST API root.
    pub fn base_url(&self) -> (u: &String)
        ensures
            u@ == self.base(),
    {
        &self.base_url
    }

    /// The New Quizzes API root.
    pub fn new_quizzes_url(&self) -> (u: &String)
        ensures
            u@ == self.nq_root(),
    {
        &self.new_quizzes_url
    }

    /// The GraphQL endpoint.
    pub fn graphql_url(&self) -> (u: &String)
        ensures
            u@ == self.graphql_endpoint(),
    {
        &self.graphql_url
    }

    /// A requester for the API rooted at `base_url`. The New Quizzes root is
    /// `../quiz/v1/` and the GraphQL endpoint `../graphql` relative to it; where
    /// such a join fails, the root itself stands in.
    pub fn new(base_url: String, access_token: String) -> (r: Requester)
        ensures
            r.base() == base_url@,
            r.nq_root() == join_or_base(base_url@, "../quiz/v1/"@),
            r.graphql_endpoint() == join_or_base(base_url@, "../graphql"@),
            r.token() == access_token@,
    {
        let new_quizzes_url = match join_url(base_url.as_str(), "../quiz/v1/") {
            Ok(u) => u,
            Err(_) => base_url.clone(),
        };
        let graphql_url = match join_url(base_url.as_str(), "../graphql") {
            Ok(u) => u,
            Err(_) => base_url.clone(),
        };
        Requester { base_url, new_quizzes_url, graphql_url, access_token }
    }

    /// The value of the `Authorization` header: `Bearer <token>`.
    pub fn auth_header(&self) -> (h: String)
        ensures
            h@ == bearer(self.token()),
    {
        let mut h = "Bearer ".to_owned();
        h.append(self.access_token.as_str());
        h
    }

    /// What a call on `endpoint` below `root` gives: the request with `method`,
    /// the joined URL and `payload`, or `Url` when the join fails.
    pub open spec fn sends_to(
        &self,
        r: crate::error::Result<Request>,
        root: Seq<char>,
        method: Method,
        endpoint: Seq<char>,
        payload: PayloadView,
    ) -> bool {
        match url_join(root, endpoint) {
            Some(u) => r matches Ok(q) && request_scoped(q, method, u, bearer(self.token()), payload, Scope::none()),
            None => r matches Err(CanvasError::Url(e)) && e == url_join_error(root, endpoint),
        }
    }

    /// What a call on `endpoint` of the REST API gives when its response's
    /// resources take `scope`.
    pub open spec fn sends_scoped(
        &self,
        r: crate::error::Result<Request>,
        method: Method,
        endpoint: Seq<char>,
        payload: PayloadView,
        scope: Scope,
    ) -> bool {
        match url_join(self.base(), endpoint) {
            Some(u) => r matches Ok(q) && request_scoped(q, method, u, bearer(self.token()), payload, scope),
            None => r matches Err(CanvasError::Url(e)) && e == url_join_error(self.base(), endpoint),
        }
    }

    /// What a call on `endpoint` of the REST API gives.
    pub open spec fn sends(
        &self,
        r: crate::error::Result<Request>,
        method: Method,
        endpoint: Seq<char>,
        payload: PayloadView,
    ) -> bool {
        self.sends_to(r, self.base(), method, endpoint, payload)
    }

    fn request_at(&self, root: &str, method: Method, endpoint: &str, payload: Payload) -> (r:
        crate::error::Result<Request>)
        ensures
            self.sends_to(r, root@, method, endpoint@, payload_view(payload)),
    {
        match join_url(root, endpoint) {
            Ok(url) => Ok(
                Request { method, url, authorization: self.auth_header(), payload, scope: Scope::empty() },
            ),
            Err(e) => Err(CanvasError::Url(e)),
        }
    }

    /// `GET` on `endpoint`, the parameters in the query string.
    pub fn get(&self, endpoint: &str, params: Vec<(String, String)>) -> (r: crate::error::Result<
        Request,
    >)
        ensures
            self.sends(r, Method::Get, endpoint@, PayloadView::Query(pairs_view(params@))),
    {
        self.request_at(self.base_url.as_str(), Method::Get, endpoint, Payload::Query(params))
    }

    /// `POST` on `endpoint`, the parameters form-encoded.
    pub fn post(&self, endpoint: &str, params: Vec<(String, String)>) -> (r: crate::error::Result<
        Request,
    >)
        ensures
            self.sends(r, Method::Post, endpoint@, PayloadView::Form(pairs_view(params@))),
    {
        self.request_at(self.base_url.as_str(), Method::Post, endpoint, Payload::Form(params))
    }

    /// `PUT` on `endpoint`, the parameters form-encoded.
    pub fn put(&self, endpoint: &str, params: Vec<(String, String)>) -> (r: crate::error::Result<
        Request,
    >)
        ensures
            self.sends(r, Method::Put, endpoint@, PayloadView::Form(pairs_view(params@))),
    {
        self.request_at(self.base_url.as_str(), Method::Put, endpoint, Payload::Form(params))
    }

    /// `DELETE` on `endpoint`, the parameters in the query string.
    pub fn delete(&self, endpoint: &str, params: Vec<(String, String)>) -> (r:
        crate::error::Result<Request>)
        ensures
            self.sends(r, Method::Delete, endpoint@, PayloadView::Query(pairs_view(params@))),
    {
        self.request_at(self.base_url.as_str(), Method::Delete, endpoint, Payload::Query(params))
    }

    /// `PATCH` on `endpoint`, the parameters form-encoded.
    pub fn patch(&self, endpoint: &str, params: Vec<(String, String)>) -> (r:
        crate::error::Result<Request>)
        ensures
            self.sends(r, Method::Patch, endpoint@, PayloadView::Form(pairs_view(params@))),
    {
        self.request_at(self.base_url.as_str(), Method::Patch, endpoint, Payload::Form(params))
    }

    /// `GET` on `endpoint` of the New Quizzes API, the parameters in the query string.
    pub fn nq_get(&self, endpoint: &str, params: Vec<(String, String)>) -> (r:
        crate::error::Result<Request>)
        ensures
            self.sends_to(
                r,
                self.nq_root(),
                Method::Get,
                endpoint@,
                PayloadView::Query(pairs_view(params@)),
            ),
    {
        self.request_at(
            self.new_quizzes_url.as_str(),
            Method::Get,
            endpoint,
            Payload::Query(params),
        )
    }

    /// `POST` on `endpoint` of the New Quizzes API with a JSON body.
    pub fn nq_post(&self, endpoint: &str, body: JsonValue) -> (r: crate::error::Result<Request>)
        ensures
            self.sends_to(r, self.nq_root(), Method::Post, endpoint@, PayloadView::Json(body)),
    {
        self.request_at(self.new_quizzes_url.as_str(), Method::Post, endpoint, Payload::Json(body))
    }

    /// `PATCH` on `endpoint` of the New Quizzes API with a JSON body.
    pub fn nq_patch(&self, endpoint: &str, body: JsonValue) -> (r: crate::error::Result<Request>)
        ensures
            self.sends_to(r, self.nq_root(), Method::Patch, endpoint@, PayloadView::Json(body)),
    {
        self.request_at(
            self.new_quizzes_url.as_str(),
            Method::Patch,
            endpoint,
            Payload::Json(body),
        )
    }

    /// `DELETE` on `endpoint` of the New Quizzes API, without parameters.
    pub fn nq_delete(&self, endpoint: &str) -> (r: crate::error::Result<Request>)
        ensures
            self.sends_to(r, self.nq_root(), Method::Delete, endpoint@, PayloadView::Empty),
    {
        self.request_at(self.new_quizzes_url.as_str(), Method::Delete, endpoint, Payload::Empty)
    }
}

/// The body of a GraphQL request: an object with the member `query`, the query
/// text, and the member `variables`, the variables or `null`.
pub open spec fn is_graphql_body(v: JsonValue, query: Seq<char>, variables: Option<JsonValue>) -> bool {
    &&& v matches JsonValue::Object(members)
    &&& members@.len() == 2
    &&& members@[0].0@ == "query"@
    &&& members@[0].1 matches JsonValue::String(q) && q@ == query
    &&& members@[1].0@ == "variables"@
    &&& members@[1].1 == match variables {
        Some(x) => x,
        None => JsonValue::Null,
    }
}

/// A GraphQL body hands Canvas the query as its `query` member and the
/// caller's variables as its `variables` member, `null` only when the caller
/// gives none; it has no other member.
pub proof fn lemma_graphql_body_members(body: JsonValue, query: Seq<char>, variables: Option<JsonValue>)
    requires
        is_graphql_body(body, query, variables),
    ensures
        get_member(body, "query"@) matches Some(JsonValue::String(q)) && q@ == query,
        get_member(body, "variables"@) == Some(
            match variables {
                Some(x) => x,
                None => JsonValue::Null,
            },
        ),
        body matches JsonValue::Object(m) && m@.len() == 2,
{
    reveal_strlit("query");
    reveal_strlit("variables");
    let m = body->Object_0@;
    assert("query"@ != "variables"@) by {
        assert("query"@.len() != "variables"@.len());
    }
    let rest = m.subrange(1, m.len() as int);
    assert(rest[0] == m[1]);
    assert(member(rest, "variables"@) == Some(rest[0].1));
    assert(member(m, "variables"@) == member(rest, "variables"@));
}

impl Requester {
    /// A GraphQL query: `POST` on the GraphQL endpoint with the query and its
    /// variables in a JSON body.
    pub fn graphql_query(&self, query: &str, variables: Option<JsonValue>) -> (q: Request)
        ensures
            q.method == Method::Post,
            q.url@ == self.graphql_endpoint(),
            q.authorization@ == bearer(self.token()),
            q.payload matches Payload::Json(body) && is_graphql_body(body, query@, variables),
            q.scope == Scope::none(),
    {
        let vars = match variables {
            Some(x) => x,
            None => JsonValue::Null,
        };
        let members: Vec<(String, JsonValue)> = vec![
            ("query".to_owned(), JsonValue::String(query.to_owned())),
            ("variables".to_owned(), vars),
        ];
        Request {
            method: Method::Post,
            url: self.graphql_url.clone(),
            authorization: self.auth_header(),
            payload: Payload::Json(JsonValue::Object(members)),
            scope: Scope::empty(),
        }
    }
}

/// A status in `200..=299`.
pub open spec fn is_success_status(status: u16) -> bool {
    200 <= status <= 299
}

/// Whether `status` is a success (`2xx`).
pub fn is_success(status: u16) -> (b: bool)
    ensures
        b == is_success_status(status),
{
    200 <= status && status <= 299
}

/// The message of a failing response: the message of the first entry of the
/// body's `errors`, else the body's `error`, else the raw body text.
pub open spec fn error_message(parsed: Option<CanvasErrorBody>, body: Seq<char>) -> Seq<char> {
    match parsed {
        Some(b) => {
            let first = match b.errors {
                Some(es) => if es@.len() > 0 {
                    match es@[0].message {
                        Some(m) => Some(m@),
                        None => None,
                    }
                } else {
                    None
                },
                None => None,
            };
            match first {
                Some(m) => m,
                None => match b.error {
                    Some(e) => e@,
                    None => body,
                },
            }
        },
        None => body,
    }
}

fn message_of(parsed: &Option<CanvasErrorBody>, body: &String) -> (m: String)
    ensures
        m@ == error_message(*parsed, body@),
{
    match parsed {
        Some(b) => {
            match &b.errors {
                Some(es) => {
                    if es.len() > 0 {
                        match &es[0].message {
                            Some(m) => {
                                return m.clone();
                            },
                            None => {},
                        }
                    }
                },
                None => {},
            }
            match &b.error {
                Some(e) => e.clone(),
                None => body.clone(),
            }
        },
        None => body.clone(),
    }
}

/// The error that a failing response with `status` stands for.
///
/// `message` is [`error_message`] of the parsed body; `errors` the body's
/// `errors` list, empty when there is none.
pub open spec fn status_error_is(
    e: CanvasError,
    status: u16,
    www_authenticate: bool,
    rate_limit_remaining: Option<String>,
    message: Seq<char>,
    errors: Seq<ApiError>,
) -> bool {
    if status == 400 {
        e matches CanvasError::BadRequest { message: m, errors: es } && m@ == message && es@
            == errors
    } else if status == 401 && www_authenticate {
        e matches CanvasError::InvalidAccessToken(m) && m@ == message
    } else if status == 401 {
        e matches CanvasError::Unauthorized(m) && m@ == message
    } else if status == 403 {
        e matches CanvasError::Forbidden(m) && m@ == message
    } else if status == 404 {
        e is ResourceDoesNotExist
    } else if status == 409 {
        e matches CanvasError::Conflict(m) && m@ == message
    } else if status == 422 {
        e matches CanvasError::UnprocessableEntity(m) && m@ == message
    } else if status == 429 {
        e matches CanvasError::RateLimitExceeded { remaining } && remaining == rate_limit_remaining
    } else {
        e matches CanvasError::ApiError { status: s, message: m } && s == status && m@ == message
    }
}

/// The `errors` list of a parsed error body, empty when there is none.
pub open spec fn body_errors(parsed: Option<CanvasErrorBody>) -> Seq<ApiError> {
    match parsed {
        Some(b) => match b.errors {
            Some(es) => es@,
            None => seq![],
        },
        None => seq![],
    }
}

/// Checks the status of a response. A `2xx` status passes; any other becomes
/// the [`CanvasError`] for it, built from the `WWW-Authenticate` and
/// `X-Rate-Limit-Remaining` headers, the body text and the body parsed as a
/// Canvas error body (`None` where it does not parse).
pub fn check_status(
    status: u16,
    www_authenticate: Option<String>,
    rate_limit_remaining: Option<String>,
    body: String,
    parsed: Option<CanvasErrorBody>,
) -> (r: core::result::Result<(), CanvasError>)
    ensures
        is_success_status(status) ==> r is Ok,
        !is_success_status(status) ==> (r matches Err(e) && status_error_is(
            e,
            status,
            www_authenticate is Some,
            rate_limit_remaining,
            error_message(parsed, body@),
            body_errors(parsed),
        )),
{
    if is_success(status) {
        return Ok(());
    }
    let message = message_of(&parsed, &body);
    let errors: Vec<ApiError> = match parsed {
        Some(b) => match b.errors {
            Some(es) => es,
            None => Vec::new(),
        },
        None => Vec::new(),
    };
    Err(
        if status == 400 {
            CanvasError::BadRequest { message, errors }
        } else if status == 401 && www_authenticate.is_some() {
            CanvasError::InvalidAccessToken(message)
        } else if status == 401 {
            CanvasError::Unauthorized(message)
        } else if status == 403 {
            CanvasError::Forbidden(message)
        } else if status == 404 {
            CanvasError::ResourceDoesNotExist
        } else if status == 409 {
            CanvasError::Conflict(message)
        } else if status == 422 {
            CanvasError::UnprocessableEntity(message)
        } else if status == 429 {
            CanvasError::RateLimitExceeded { remaining: rate_limit_remaining }
        } else {
            CanvasError::ApiError { status, message }
        },
    )
}

} // verus!
