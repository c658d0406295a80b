use vstd::prelude::*;
use std::sync::Arc;
use crate::error::{bad_request, is_bad_request, Result};
use crate::http::{scoped, Method, PayloadView, Request, Requester, Scope};
use crate::json::{flag, flag_spec, JsonValue};
use crate::params::pairs_view;
use crate::text::{dec, id_or, id_or_spec, push_u64, same_text};
use crate::http::payload_view;

verus! {

/// A Canvas enrollment — the relationship between a user and a course section.
#[derive(Debug)]
pub struct Enrollment {
    pub id: u64,
    pub course_id: Option<u64>,
    pub course_section_id: Option<u64>,
    pub user_id: Option<u64>,
    /// As the name Canvas uses for it.
    pub enrollment_state: Option<String>,
    /// As the name Canvas uses for it.
    pub enrollment_type: Option<String>,
    pub role: Option<String>,
    pub role_id: Option<u64>,
    /// A time, as RFC 3339 text.
    pub created_at: Option<String>,
    /// A time, as RFC 3339 text.
    pub updated_at: Option<String>,
    /// A time, as RFC 3339 text.
    pub start_at: Option<String>,
    /// A time, as RFC 3339 text.
    pub end_at: Option<String>,
    /// A time, as RFC 3339 text.
    pub last_activity_at: Option<String>,
    pub html_url: Option<String>,
    pub grades: Option<EnrollmentGrades>,
    pub requester: Option<Arc<Requester>>,
}

impl Enrollment {
    /// Takes in this Enrollment as fetched: it keeps `requester` for its own calls.
    pub fn adopt(&mut self, requester: Arc<Requester>, scope: &Scope)
        ensures
            final(self).requester == Some(requester),
            final(self).id == old(self).id,
            final(self).course_id == old(self).course_id,
            final(self).course_section_id == old(self).course_section_id,
            final(self).user_id == old(self).user_id,
            final(self).enrollment_state == old(self).enrollment_state,
            final(self).enrollment_type == old(self).enrollment_type,
            final(self).role == old(self).role,
            final(self).role_id == old(self).role_id,
            final(self).created_at == old(self).created_at,
            final(self).updated_at == old(self).updated_at,
            final(self).start_at == old(self).start_at,
            final(self).end_at == old(self).end_at,
            final(self).last_activity_at == old(self).last_activity_at,
            final(self).html_url == old(self).html_url,
            final(self).grades == old(self).grades,
    {
        self.requester = Some(requester);
    }

    fn req(&self) -> (r: &Arc<Requester>)
        requires
            self.requester is Some,
        ensures
            *r == self.requester.unwrap(),
    {
        self.requester.as_ref().unwrap()
    }

    /// Accept a pending course invitation.
    ///
    /// What Canvas answers is read with [`Self::succeeded`].
    ///
    /// # Canvas API
    /// `POST /api/v1/courses/:course_id/enrollments/:id/accept`
    pub fn accept(&self) -> (r: Result<Request>)
        requires
            self.requester is Some,
        ensures
            self.requester.unwrap().sends_scoped(
                r,
                Method::Post,
                "courses/"@ + dec(id_or_spec(self.course_id, 0) as nat) + "/enrollments/"@ + dec(self.id as nat) + "/accept"@,
                PayloadView::Form(seq![]),
                Scope::none(),
            ),
    {
        let mut endpoint = String::new();
        endpoint.append("courses/");
        push_u64(&mut endpoint, id_or(self.course_id, 0));
        endpoint.append("/enrollments/");
        push_u64(&mut endpoint, self.id);
        endpoint.append("/accept");
        assert(endpoint@ =~= "courses/"@ + dec(id_or_spec(self.course_id, 0) as nat) + "/enrollments/"@ + dec(self.id as nat) + "/accept"@);
        let form: Vec<(String, String)> = Vec::new();
        assert(pairs_view(form@) =~= seq![]);
        scoped(self.req().post(endpoint.as_str(), form), Scope::empty())
    }

    /// Reject a pending course invitation.
    ///
    /// What Canvas answers is read with [`Self::succeeded`].
    ///
    /// # Canvas API
    /// `POST /api/v1/courses/:course_id/enrollments/:id/reject`
    pub fn reject(&self) -> (r: Result<Request>)
        requires
            self.requester is Some,
        ensures
            self.requester.unwrap().sends_scoped(
                r,
                Method::Post,
                "courses/"@ + dec(id_or_spec(self.course_id, 0) as nat) + "/enrollments/"@ + dec(self.id as nat) + "/reject"@,
                PayloadView::Form(seq![]),
                Scope::none(),
            ),
    {
        let mut endpoint = String::new();
        endpoint.append("courses/");
        push_u64(&mut endpoint, id_or(self.course_id, 0));
        endpoint.append("/enrollments/");
        push_u64(&mut endpoint, self.id);
        endpoint.append("/reject");
        assert(endpoint@ =~= "courses/"@ + dec(id_or_spec(self.course_id, 0) as nat) + "/enrollments/"@ + dec(self.id as nat) + "/reject"@);
        let form: Vec<(String, String)> = Vec::new();
        assert(pairs_view(form@) =~= seq![]);
        scoped(self.req().post(endpoint.as_str(), form), Scope::empty())
    }

    /// Re-activate an inactive enrollment.
    ///
    /// # Canvas API
    /// `PUT /api/v1/courses/:course_id/enrollments/:id/reactivate`
    pub fn reactivate(&self) -> (r: Result<Request>)
        requires
            self.requester is Some,
        ensures
            self.requester.unwrap().sends_scoped(
                r,
                Method::Put,
                "courses/"@ + dec(id_or_spec(self.course_id, 0) as nat) + "/enrollments/"@ + dec(self.id as nat) + "/reactivate"@,
                PayloadView::Form(seq![]),
                Scope::none(),
            ),
    {
        let mut endpoint = String::new();
        endpoint.append("courses/");
        push_u64(&mut endpoint, id_or(self.course_id, 0));
        endpoint.append("/enrollments/");
        push_u64(&mut endpoint, self.id);
        endpoint.append("/reactivate");
        assert(endpoint@ =~= "courses/"@ + dec(id_or_spec(self.course_id, 0) as nat) + "/enrollments/"@ + dec(self.id as nat) + "/reactivate"@);
        let form: Vec<(String, String)> = Vec::new();
        assert(pairs_view(form@) =~= seq![]);
        scoped(self.req().put(endpoint.as_str(), form), Scope::empty())
    }
}

/// Grade summary for an enrollment.
#[derive(Debug)]
pub struct EnrollmentGrades {
    pub html_url: Option<String>,
    /// A decimal, as the text `serde_json` prints for it (`10.0`, `2.5`).
    pub current_score: Option<String>,
    /// A decimal, as the text `serde_json` prints for it (`10.0`, `2.5`).
    pub final_score: Option<String>,
    pub current_grade: Option<String>,
    pub final_grade: Option<String>,
}

/// The tasks that [`Enrollment::deactivate`] accepts.
pub open spec fn is_enrollment_task(task: Seq<char>) -> bool {
    task == "conclude"@ || task == "delete"@ || task == "inactivate"@ || task == "deactivate"@
}

/// The message for a task that [`Enrollment::deactivate`] refuses.
pub open spec fn invalid_task_message(task: Seq<char>) -> Seq<char> {
    task + " is not a valid task. Use one of: conclude, delete, inactivate, deactivate"@
}

impl Enrollment {
    /// What [`Self::deactivate`] answers for `task`: the refusal with
    /// [`invalid_task_message`] for a task it does not accept, else the
    /// `DELETE` of the enrollment with the task in the query.
    pub open spec fn deactivate_answers(&self, task: Seq<char>, r: Result<Request>) -> bool {
        &&& !is_enrollment_task(task) ==> (r matches Err(e) && is_bad_request(e, invalid_task_message(task)))
        &&& is_enrollment_task(task) ==> self.requester.unwrap().sends_scoped(
            r,
            Method::Delete,
            "courses/"@ + dec(id_or_spec(self.course_id, 0) as nat) + "/enrollments/"@ + dec(self.id as nat),
            PayloadView::Query(seq![("task"@, task)]),
            Scope::none(),
        )
    }

    /// Whether Canvas's answer to [`Self::accept`] or [`Self::reject`] reports
    /// success: its `success` member, `false` when it is missing or not a boolean.
    pub fn succeeded(response: &JsonValue) -> (b: bool)
        ensures
            b == flag_spec(*response, "success"@),
    {
        flag(response, "success")
    }

    /// Delete, conclude, or deactivate this enrollment.
    ///
    /// `task` must be one of `"conclude"`, `"delete"`, `"inactivate"`, or
    /// `"deactivate"`; any other task is refused without calling Canvas.
    ///
    /// # Canvas API
    /// `DELETE /api/v1/courses/:course_id/enrollments/:id`
    pub fn deactivate(&self, task: &str) -> (r: Result<Request>)
        requires
            is_enrollment_task(task@) ==> self.requester is Some,
        ensures
            self.deactivate_answers(task@, r),
    {
        if !(same_text(task, "conclude") || same_text(task, "delete") || same_text(task, "inactivate")
            || same_text(task, "deactivate")) {
            let mut message = task.to_owned();
            message.append(" is not a valid task. Use one of: conclude, delete, inactivate, deactivate");
            return Err(bad_request(message.as_str()));
        }
        let mut endpoint = String::new();
        endpoint.append("courses/");
        push_u64(&mut endpoint, id_or(self.course_id, 0));
        endpoint.append("/enrollments/");
        push_u64(&mut endpoint, self.id);
        let form: Vec<(String, String)> = vec![("task".to_owned(), task.to_owned())];
        assert(pairs_view(form@) =~= seq![("task"@, task@)]);
        scoped(self.req().delete(endpoint.as_str(), form), Scope::empty())
    }
}

/// `deactivate` accepts exactly the four tasks `conclude`, `delete`,
/// `inactivate` and `deactivate`: for each of them it sends the `DELETE` with
/// `task=<task>` in the query (or fails only on the URL), and every other task
/// is refused as a bad request without a request.
pub proof fn lemma_deactivate_tasks(e: Enrollment, task: Seq<char>, r: Result<Request>)
    requires
        e.deactivate_answers(task, r),
        e.requester is Some,
    ensures
        (task == "conclude"@ || task == "delete"@ || task == "inactivate"@ || task == "deactivate"@) ==> (
        match r {
            Ok(q) => q.method == Method::Delete && payload_view(q.payload) == PayloadView::Query(
                seq![("task"@, task)],
            ),
            Err(x) => x is Url,
        }),
        !(task == "conclude"@ || task == "delete"@ || task == "inactivate"@ || task == "deactivate"@) ==> (
        r matches Err(x) && x is BadRequest),
{
}

} // verus!
