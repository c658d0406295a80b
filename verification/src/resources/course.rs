use vstd::prelude::*;
use std::sync::Arc;
use crate::error::{CanvasError, Result};
use crate::http::{scoped, share, Method, PayloadView, Request, Requester, Scope};
use crate::json::{flag, get, JsonValue};
use crate::pagination::{lists, PageStream};
use crate::params::{canvas_params, pairs_view, prepend_pair, wrap_params};
use crate::text::{dec, push_u64, u64_to_text};
use crate::http::{bearer, request_scoped, Payload};
use crate::json::object_holds;
use crate::urls::{url_join, url_join_error};
use crate::resources::assignment::Assignment;
use crate::resources::assignment::AssignmentGroup;
use crate::resources::blueprint::BlueprintSubscription;
use crate::resources::collaboration::Collaboration;
use crate::resources::content_export::ContentExport;
use crate::resources::content_export::ContentExportParams;
use crate::resources::content_migration::ContentMigration;
use crate::resources::lti_resource_link::CreateLtiResourceLinkParams;
use crate::resources::params::quiz_params::CreateQuizParams;
use crate::resources::custom_gradebook_column::CustomGradebookColumn;
use crate::resources::custom_gradebook_column::CustomGradebookColumnParams;
use crate::resources::gradebook_history::Day;
use crate::resources::discussion_topic::DiscussionTopic;
use crate::resources::enrollment::Enrollment;
use crate::resources::external_tool::ExternalTool;
use crate::resources::external_tool::ExternalToolParams;
use crate::resources::feature::Feature;
use crate::resources::file::File;
use crate::resources::grade_change_log::GradeChangeEvent;
use crate::resources::gradebook_history::Grader;
use crate::resources::grading_period::GradingPeriod;
use crate::resources::grading_standard::GradingStandard;
use crate::resources::grading_standard::GradingStandardParams;
use crate::resources::group::Group;
use crate::resources::group::GroupCategory;
use crate::resources::lti_resource_link::LtiResourceLink;
use crate::resources::content_migration::Migrator;
use crate::resources::module::Module;
use crate::resources::new_quiz::NewQuiz;
use crate::resources::new_quiz::NewQuizParams;
use crate::resources::outcome::OutcomeLink;
use crate::resources::page::Page;
use crate::resources::gradebook_history::SubmissionHistory;
use crate::resources::gradebook_history::SubmissionVersion;
use crate::resources::params::course_params::UpdateCourseParams;
use crate::resources::outcome::UpdateOutcomeGroupParams;

verus! {

#[derive(Debug)]
pub struct Course {
    pub id: u64,
    pub name: Option<String>,
    pub course_code: Option<String>,
    /// As the name Canvas uses for it.
    pub workflow_state: Option<String>,
    pub account_id: Option<u64>,
    pub root_account_id: Option<u64>,
    pub enrollment_term_id: Option<u64>,
    pub sis_course_id: Option<String>,
    /// A time, as RFC 3339 text.
    pub start_at: Option<String>,
    /// A time, as RFC 3339 text.
    pub end_at: Option<String>,
    pub grading_standard_id: Option<u64>,
    pub is_public: Option<bool>,
    pub license: Option<String>,
    pub locale: Option<String>,
    pub time_zone: Option<String>,
    pub total_students: Option<u64>,
    pub default_view: Option<String>,
    pub syllabus_body: Option<String>,
    pub public_description: Option<String>,
    pub hide_final_grades: Option<bool>,
    pub apply_assignment_group_weights: Option<bool>,
    pub restrict_enrollments_to_course_dates: Option<bool>,
    pub requester: Option<Arc<Requester>>,
}

impl Course {
    /// Takes in this Course as fetched: it keeps `requester` for its own calls.
    pub fn adopt(&mut self, requester: Arc<Requester>, scope: &Scope)
        ensures
            final(self).requester == Some(requester),
            final(self).id == old(self).id,
            final(self).name == old(self).name,
            final(self).course_code == old(self).course_code,
            final(self).workflow_state == old(self).workflow_state,
            final(self).account_id == old(self).account_id,
            final(self).root_account_id == old(self).root_account_id,
            final(self).enrollment_term_id == old(self).enrollment_term_id,
            final(self).sis_course_id == old(self).sis_course_id,
            final(self).start_at == old(self).start_at,
            final(self).end_at == old(self).end_at,
            final(self).grading_standard_id == old(self).grading_standard_id,
            final(self).is_public == old(self).is_public,
            final(self).license == old(self).license,
            final(self).locale == old(self).locale,
            final(self).time_zone == old(self).time_zone,
            final(self).total_students == old(self).total_students,
            final(self).default_view == old(self).default_view,
            final(self).syllabus_body == old(self).syllabus_body,
            final(self).public_description == old(self).public_description,
            final(self).hide_final_grades == old(self).hide_final_grades,
            final(self).apply_assignment_group_weights == old(self).apply_assignment_group_weights,
            final(self).restrict_enrollments_to_course_dates == old(self).restrict_enrollments_to_course_dates,
    {
        self.requester = Some(requester);
    }

    fn req(&self) -> (r: &Arc<Requester>)
        requires
            self.requester is Some,
        ensures
            *r == self.requester.unwrap(),
    {
        self.requester.as_ref().unwrap()
    }

    /// Stream all assignments in this course.
    ///
    /// # Canvas API
    /// `GET /api/v1/courses/:course_id/assignments`
    pub fn get_assignments(&self) -> (s: PageStream<Assignment>)
        requires
            self.requester is Some,
        ensures
            lists(s, *self.requester.unwrap(), self.requester.unwrap().base(), "courses/"@ + dec(self.id as nat) + "/assignments"@, seq![], Scope { course_id: Some(Some(self.id)), ..Scope::none() }),
    {
        let mut endpoint = String::new();
        endpoint.append("courses/");
        push_u64(&mut endpoint, self.id);
        endpoint.append("/assignments");
        assert(endpoint@ =~= "courses/"@ + dec(self.id as nat) + "/assignments"@);
        let form: Vec<(String, String)> = Vec::new();
        assert(pairs_view(form@) =~= seq![]);
        PageStream::new(share(self.req()), endpoint.as_str(), form).with_scope(Scope { course_id: Some(Some(self.id)), ..Scope::empty() })
    }

    /// Fetch a single assignment.
    ///
    /// # Canvas API
    /// `GET /api/v1/courses/:course_id/assignments/:id`
    pub fn get_assignment(&self, assignment_id: u64) -> (r: Result<Request>)
        requires
            self.requester is Some,
        ensures
            self.requester.unwrap().sends_scoped(
                r,
                Method::Get,
                "courses/"@ + dec(self.id as nat) + "/assignments/"@ + dec(assignment_id as nat),
                PayloadView::Query(seq![]),
                Scope { course_id: Some(Some(self.id)), ..Scope::none() },
            ),
    {
        let mut endpoint = String::new();
        endpoint.append("courses/");
        push_u64(&mut endpoint, self.id);
        endpoint.append("/assignments/");
        push_u64(&mut endpoint, assignment_id);
        assert(endpoint@ =~= "courses/"@ + dec(self.id as nat) + "/assignments/"@ + dec(assignment_id as nat));
        let form: Vec<(String, String)> = Vec::new();
        assert(pairs_view(form@) =~= seq![]);
        scoped(self.req().get(endpoint.as_str(), form), Scope { course_id: Some(Some(self.id)), ..Scope::empty() })
    }

    /// Create a new assignment in this course.
    ///
    /// # Canvas API
    /// `POST /api/v1/courses/:id/assignments`
    pub fn create_assignment(&self, params: JsonValue) -> (r: Result<Request>)
        requires
            self.requester is Some,
        ensures
            self.requester.unwrap().sends_scoped(
                r,
                Method::Post,
                "courses/"@ + dec(self.id as nat) + "/assignments"@,
                PayloadView::Form(canvas_params("assignment"@, params)),
                Scope { course_id: Some(Some(self.id)), ..Scope::none() },
            ),
    {
        let mut endpoint = String::new();
        endpoint.append("courses/");
        push_u64(&mut endpoint, self.id);
        endpoint.append("/assignments");
        assert(endpoint@ =~= "courses/"@ + dec(self.id as nat) + "/assignments"@);
        let form: Vec<(String, String)> = wrap_params("assignment", &params);
        assert(pairs_view(form@) =~= canvas_params("assignment"@, params));
        scoped(self.req().post(endpoint.as_str(), form), Scope { course_id: Some(Some(self.id)), ..Scope::empty() })
    }

    /// Stream all assignment groups in this course.
    ///
    /// # Canvas API
    /// `GET /api/v1/courses/:id/assignment_groups`
    pub fn get_assignment_groups(&self) -> (s: PageStream<AssignmentGroup>)
        requires
            self.requester is Some,
        ensures
            lists(s, *self.requester.unwrap(), self.requester.unwrap().base(), "courses/"@ + dec(self.id as nat) + "/assignment_groups"@, seq![], Scope { course_id: Some(Some(self.id)), ..Scope::none() }),
    {
        let mut endpoint = String::new();
        endpoint.append("courses/");
        push_u64(&mut endpoint, self.id);
        endpoint.append("/assignment_groups");
        assert(endpoint@ =~= "courses/"@ + dec(self.id as nat) + "/assignment_groups"@);
        let form: Vec<(String, String)> = Vec::new();
        assert(pairs_view(form@) =~= seq![]);
        PageStream::new(share(self.req()), endpoint.as_str(), form).with_scope(Scope { course_id: Some(Some(self.id)), ..Scope::empty() })
    }

    /// Create a new assignment group in this course.
    ///
    /// # Canvas API
    /// `POST /api/v1/courses/:id/assignment_groups`
    pub fn create_assignment_group(&self, params: JsonValue) -> (r: Result<Request>)
        requires
            self.requester is Some,
        ensures
            self.requester.unwrap().sends_scoped(
                r,
                Method::Post,
                "courses/"@ + dec(self.id as nat) + "/assignment_groups"@,
                PayloadView::Form(canvas_params("assignment_group"@, params)),
                Scope { course_id: Some(Some(self.id)), ..Scope::none() },
            ),
    {
        let mut endpoint = String::new();
        endpoint.append("courses/");
        push_u64(&mut endpoint, self.id);
        endpoint.append("/assignment_groups");
        assert(endpoint@ =~= "courses/"@ + dec(self.id as nat) + "/assignment_groups"@);
        let form: Vec<(String, String)> = wrap_params("assignment_group", &params);
        assert(pairs_view(form@) =~= canvas_params("assignment_group"@, params));
        scoped(self.req().post(endpoint.as_str(), form), Scope { course_id: Some(Some(self.id)), ..Scope::empty() })
    }

    /// Stream all sections in this course.
    ///
    /// # Canvas API
    /// `GET /api/v1/courses/:course_id/sections`
    pub fn get_sections(&self) -> (s: PageStream<JsonValue>)
        requires
            self.requester is Some,
        ensures
            lists(s, *self.requester.unwrap(), self.requester.unwrap().base(), "courses/"@ + dec(self.id as nat) + "/sections"@, seq![], Scope::none()),
    {
        let mut endpoint = String::new();
        endpoint.append("courses/");
        push_u64(&mut endpoint, self.id);
        endpoint.append("/sections");
        assert(endpoint@ =~= "courses/"@ + dec(self.id as nat) + "/sections"@);
        let form: Vec<(String, String)> = Vec::new();
        assert(pairs_view(form@) =~= seq![]);
        PageStream::new(share(self.req()), endpoint.as_str(), form).with_scope(Scope::empty())
    }

    /// Fetch a single section by ID.
    ///
    /// # Canvas API
    /// `GET /api/v1/courses/:id/sections/:section_id`
    pub fn get_section(&self, section_id: u64) -> (r: Result<Request>)
        requires
            self.requester is Some,
        ensures
            self.requester.unwrap().sends_scoped(
                r,
                Method::Get,
                "courses/"@ + dec(self.id as nat) + "/sections/"@ + dec(section_id as nat),
                PayloadView::Query(seq![]),
                Scope::none(),
            ),
    {
        let mut endpoint = String::new();
        endpoint.append("courses/");
        push_u64(&mut endpoint, self.id);
        endpoint.append("/sections/");
        push_u64(&mut endpoint, section_id);
        assert(endpoint@ =~= "courses/"@ + dec(self.id as nat) + "/sections/"@ + dec(section_id as nat));
        let form: Vec<(String, String)> = Vec::new();
        assert(pairs_view(form@) =~= seq![]);
        scoped(self.req().get(endpoint.as_str(), form), Scope::empty())
    }

    /// Stream all enrollments in this course.
    ///
    /// # Canvas API
    /// `GET /api/v1/courses/:course_id/enrollments`
    pub fn get_enrollments(&self) -> (s: PageStream<Enrollment>)
        requires
            self.requester is Some,
        ensures
            lists(s, *self.requester.unwrap(), self.requester.unwrap().base(), "courses/"@ + dec(self.id as nat) + "/enrollments"@, seq![], Scope::none()),
    {
        let mut endpoint = String::new();
        endpoint.append("courses/");
        push_u64(&mut endpoint, self.id);
        endpoint.append("/enrollments");
        assert(endpoint@ =~= "courses/"@ + dec(self.id as nat) + "/enrollments"@);
        let form: Vec<(String, String)> = Vec::new();
        assert(pairs_view(form@) =~= seq![]);
        PageStream::new(share(self.req()), endpoint.as_str(), form).with_scope(Scope::empty())
    }

    /// Stream all users in this course.
    ///
    /// # Canvas API
    /// `GET /api/v1/courses/:course_id/users`
    pub fn get_users(&self) -> (s: PageStream<JsonValue>)
        requires
            self.requester is Some,
        ensures
            lists(s, *self.requester.unwrap(), self.requester.unwrap().base(), "courses/"@ + dec(self.id as nat) + "/users"@, seq![], Scope::none()),
    {
        let mut endpoint = String::new();
        endpoint.append("courses/");
        push_u64(&mut endpoint, self.id);
        endpoint.append("/users");
        assert(endpoint@ =~= "courses/"@ + dec(self.id as nat) + "/users"@);
        let form: Vec<(String, String)> = Vec::new();
        assert(pairs_view(form@) =~= seq![]);
        PageStream::new(share(self.req()), endpoint.as_str(), form).with_scope(Scope::empty())
    }

    /// Update this course.
    ///
    /// # Canvas API
    /// `PUT /api/v1/courses/:id`
    pub fn update(&self, params: UpdateCourseParams) -> (r: Result<Request>)
        requires
            self.requester is Some,
        ensures
            self.requester.unwrap().sends_scoped(
                r,
                Method::Put,
                "courses/"@ + dec(self.id as nat),
                PayloadView::Form(params.form_view("course"@)),
                Scope::none(),
            ),
    {
        let mut endpoint = String::new();
        endpoint.append("courses/");
        push_u64(&mut endpoint, self.id);
        assert(endpoint@ =~= "courses/"@ + dec(self.id as nat));
        let form: Vec<(String, String)> = params.to_form("course");
        assert(pairs_view(form@) =~= params.form_view("course"@));
        scoped(self.req().put(endpoint.as_str(), form), Scope::empty())
    }

    /// Delete this course. Canvas returns the deleted course object.
    ///
    /// # Canvas API
    /// `DELETE /api/v1/courses/:id`
    pub fn delete(&self) -> (r: Result<Request>)
        requires
            self.requester is Some,
        ensures
            self.requester.unwrap().sends_scoped(
                r,
                Method::Delete,
                "courses/"@ + dec(self.id as nat),
                PayloadView::Query(seq![("event"@, "delete"@)]),
                Scope::none(),
            ),
    {
        let mut endpoint = String::new();
        endpoint.append("courses/");
        push_u64(&mut endpoint, self.id);
        assert(endpoint@ =~= "courses/"@ + dec(self.id as nat));
        let form: Vec<(String, String)> = vec![("event".to_owned(), "delete".to_owned())];
        assert(pairs_view(form@) =~= seq![("event"@, "delete"@)]);
        scoped(self.req().delete(endpoint.as_str(), form), Scope::empty())
    }

    /// Stream all quizzes in this course.
    ///
    /// # Canvas API
    /// `GET /api/v1/courses/:id/quizzes`
    pub fn get_quizzes(&self) -> (s: PageStream<JsonValue>)
        requires
            self.requester is Some,
        ensures
            lists(s, *self.requester.unwrap(), self.requester.unwrap().base(), "courses/"@ + dec(self.id as nat) + "/quizzes"@, seq![], Scope { course_id: Some(Some(self.id)), ..Scope::none() }),
    {
        let mut endpoint = String::new();
        endpoint.append("courses/");
        push_u64(&mut endpoint, self.id);
        endpoint.append("/quizzes");
        assert(endpoint@ =~= "courses/"@ + dec(self.id as nat) + "/quizzes"@);
        let form: Vec<(String, String)> = Vec::new();
        assert(pairs_view(form@) =~= seq![]);
        PageStream::new(share(self.req()), endpoint.as_str(), form).with_scope(Scope { course_id: Some(Some(self.id)), ..Scope::empty() })
    }

    /// Fetch a single quiz.
    ///
    /// # Canvas API
    /// `GET /api/v1/courses/:id/quizzes/:quiz_id`
    pub fn get_quiz(&self, quiz_id: u64) -> (r: Result<Request>)
        requires
            self.requester is Some,
        ensures
            self.requester.unwrap().sends_scoped(
                r,
                Method::Get,
                "courses/"@ + dec(self.id as nat) + "/quizzes/"@ + dec(quiz_id as nat),
                PayloadView::Query(seq![]),
                Scope { course_id: Some(Some(self.id)), ..Scope::none() },
            ),
    {
        let mut endpoint = String::new();
        endpoint.append("courses/");
        push_u64(&mut endpoint, self.id);
        endpoint.append("/quizzes/");
        push_u64(&mut endpoint, quiz_id);
        assert(endpoint@ =~= "courses/"@ + dec(self.id as nat) + "/quizzes/"@ + dec(quiz_id as nat));
        let form: Vec<(String, String)> = Vec::new();
        assert(pairs_view(form@) =~= seq![]);
        scoped(self.req().get(endpoint.as_str(), form), Scope { course_id: Some(Some(self.id)), ..Scope::empty() })
    }

    /// Create a new quiz in this course.
    ///
    /// # Canvas API
    /// `POST /api/v1/courses/:id/quizzes`
    pub fn create_quiz(&self, params: CreateQuizParams) -> (r: Result<Request>)
        requires
            self.requester is Some,
        ensures
            self.requester.unwrap().sends_scoped(
                r,
                Method::Post,
                "courses/"@ + dec(self.id as nat) + "/quizzes"@,
                PayloadView::Form(params.form_view("quiz"@)),
                Scope { course_id: Some(Some(self.id)), ..Scope::none() },
            ),
    {
        let mut endpoint = String::new();
        endpoint.append("courses/");
        push_u64(&mut endpoint, self.id);
        endpoint.append("/quizzes");
        assert(endpoint@ =~= "courses/"@ + dec(self.id as nat) + "/quizzes"@);
        let form: Vec<(String, String)> = params.to_form("quiz");
        assert(pairs_view(form@) =~= params.form_view("quiz"@));
        scoped(self.req().post(endpoint.as_str(), form), Scope { course_id: Some(Some(self.id)), ..Scope::empty() })
    }

    /// Stream all modules in this course.
    ///
    /// # Canvas API
    /// `GET /api/v1/courses/:id/modules`
    pub fn get_modules(&self) -> (s: PageStream<Module>)
        requires
            self.requester is Some,
        ensures
            lists(s, *self.requester.unwrap(), self.requester.unwrap().base(), "courses/"@ + dec(self.id as nat) + "/modules"@, seq![], Scope { course_id: Some(Some(self.id)), ..Scope::none() }),
    {
        let mut endpoint = String::new();
        endpoint.append("courses/");
        push_u64(&mut endpoint, self.id);
        endpoint.append("/modules");
        assert(endpoint@ =~= "courses/"@ + dec(self.id as nat) + "/modules"@);
        let form: Vec<(String, String)> = Vec::new();
        assert(pairs_view(form@) =~= seq![]);
        PageStream::new(share(self.req()), endpoint.as_str(), form).with_scope(Scope { course_id: Some(Some(self.id)), ..Scope::empty() })
    }

    /// Fetch a single module.
    ///
    /// # Canvas API
    /// `GET /api/v1/courses/:id/modules/:module_id`
    pub fn get_module(&self, module_id: u64) -> (r: Result<Request>)
        requires
            self.requester is Some,
        ensures
            self.requester.unwrap().sends_scoped(
                r,
                Method::Get,
                "courses/"@ + dec(self.id as nat) + "/modules/"@ + dec(module_id as nat),
                PayloadView::Query(seq![]),
                Scope { course_id: Some(Some(self.id)), ..Scope::none() },
            ),
    {
        let mut endpoint = String::new();
        endpoint.append("courses/");
        push_u64(&mut endpoint, self.id);
        endpoint.append("/modules/");
        push_u64(&mut endpoint, module_id);
        assert(endpoint@ =~= "courses/"@ + dec(self.id as nat) + "/modules/"@ + dec(module_id as nat));
        let form: Vec<(String, String)> = Vec::new();
        assert(pairs_view(form@) =~= seq![]);
        scoped(self.req().get(endpoint.as_str(), form), Scope { course_id: Some(Some(self.id)), ..Scope::empty() })
    }

    /// Create a new module in this course.
    ///
    /// # Canvas API
    /// `POST /api/v1/courses/:id/modules`
    pub fn create_module(&self, params: JsonValue) -> (r: Result<Request>)
        requires
            self.requester is Some,
        ensures
            self.requester.unwrap().sends_scoped(
                r,
                Method::Post,
                "courses/"@ + dec(self.id as nat) + "/modules"@,
                PayloadView::Form(canvas_params("module"@, params)),
                Scope { course_id: Some(Some(self.id)), ..Scope::none() },
            ),
    {
        let mut endpoint = String::new();
        endpoint.append("courses/");
        push_u64(&mut endpoint, self.id);
        endpoint.append("/modules");
        assert(endpoint@ =~= "courses/"@ + dec(self.id as nat) + "/modules"@);
        let form: Vec<(String, String)> = wrap_params("module", &params);
        assert(pairs_view(form@) =~= canvas_params("module"@, params));
        scoped(self.req().post(endpoint.as_str(), form), Scope { course_id: Some(Some(self.id)), ..Scope::empty() })
    }

    /// Stream all pages in this course.
    ///
    /// # Canvas API
    /// `GET /api/v1/courses/:id/pages`
    pub fn get_pages(&self) -> (s: PageStream<Page>)
        requires
            self.requester is Some,
        ensures
            lists(s, *self.requester.unwrap(), self.requester.unwrap().base(), "courses/"@ + dec(self.id as nat) + "/pages"@, seq![], Scope { course_id: Some(Some(self.id)), ..Scope::none() }),
    {
        let mut endpoint = String::new();
        endpoint.append("courses/");
        push_u64(&mut endpoint, self.id);
        endpoint.append("/pages");
        assert(endpoint@ =~= "courses/"@ + dec(self.id as nat) + "/pages"@);
        let form: Vec<(String, String)> = Vec::new();
        assert(pairs_view(form@) =~= seq![]);
        PageStream::new(share(self.req()), endpoint.as_str(), form).with_scope(Scope { course_id: Some(Some(self.id)), ..Scope::empty() })
    }

    /// Fetch a single page by URL slug or ID.
    ///
    /// # Canvas API
    /// `GET /api/v1/courses/:id/pages/:url_or_id`
    pub fn get_page(&self, url_or_id: &str) -> (r: Result<Request>)
        requires
            self.requester is Some,
        ensures
            self.requester.unwrap().sends_scoped(
                r,
                Method::Get,
                "courses/"@ + dec(self.id as nat) + "/pages/"@ + url_or_id@,
                PayloadView::Query(seq![]),
                Scope { course_id: Some(Some(self.id)), ..Scope::none() },
            ),
    {
        let mut endpoint = String::new();
        endpoint.append("courses/");
        push_u64(&mut endpoint, self.id);
        endpoint.append("/pages/");
        endpoint.append(url_or_id);
        assert(endpoint@ =~= "courses/"@ + dec(self.id as nat) + "/pages/"@ + url_or_id@);
        let form: Vec<(String, String)> = Vec::new();
        assert(pairs_view(form@) =~= seq![]);
        scoped(self.req().get(endpoint.as_str(), form), Scope { course_id: Some(Some(self.id)), ..Scope::empty() })
    }

    /// Stream all discussion topics in this course.
    ///
    /// # Canvas API
    /// `GET /api/v1/courses/:id/discussion_topics`
    pub fn get_discussion_topics(&self) -> (s: PageStream<DiscussionTopic>)
        requires
            self.requester is Some,
        ensures
            lists(s, *self.requester.unwrap(), self.requester.unwrap().base(), "courses/"@ + dec(self.id as nat) + "/discussion_topics"@, seq![], Scope { course_id: Some(Some(self.id)), ..Scope::none() }),
    {
        let mut endpoint = String::new();
        endpoint.append("courses/");
        push_u64(&mut endpoint, self.id);
        endpoint.append("/discussion_topics");
        assert(endpoint@ =~= "courses/"@ + dec(self.id as nat) + "/discussion_topics"@);
        let form: Vec<(String, String)> = Vec::new();
        assert(pairs_view(form@) =~= seq![]);
        PageStream::new(share(self.req()), endpoint.as_str(), form).with_scope(Scope { course_id: Some(Some(self.id)), ..Scope::empty() })
    }

    /// Fetch a single discussion topic.
    ///
    /// # Canvas API
    /// `GET /api/v1/courses/:id/discussion_topics/:topic_id`
    pub fn get_discussion_topic(&self, topic_id: u64) -> (r: Result<Request>)
        requires
            self.requester is Some,
        ensures
            self.requester.unwrap().sends_scoped(
                r,
                Method::Get,
                "courses/"@ + dec(self.id as nat) + "/discussion_topics/"@ + dec(topic_id as nat),
                PayloadView::Query(seq![]),
                Scope { course_id: Some(Some(self.id)), ..Scope::none() },
            ),
    {
        let mut endpoint = String::new();
        endpoint.append("courses/");
        push_u64(&mut endpoint, self.id);
        endpoint.append("/discussion_topics/");
        push_u64(&mut endpoint, topic_id);
        assert(endpoint@ =~= "courses/"@ + dec(self.id as nat) + "/discussion_topics/"@ + dec(topic_id as nat));
        let form: Vec<(String, String)> = Vec::new();
        assert(pairs_view(form@) =~= seq![]);
        scoped(self.req().get(endpoint.as_str(), form), Scope { course_id: Some(Some(self.id)), ..Scope::empty() })
    }

    /// Create a new discussion topic in this course.
    ///
    /// # Canvas API
    /// `POST /api/v1/courses/:id/discussion_topics`
    pub fn create_discussion_topic(&self, params: JsonValue) -> (r: Result<Request>)
        requires
            self.requester is Some,
        ensures
            self.requester.unwrap().sends_scoped(
                r,
                Method::Post,
                "courses/"@ + dec(self.id as nat) + "/discussion_topics"@,
                PayloadView::Form(canvas_params("discussion_topic"@, params)),
                Scope { course_id: Some(Some(self.id)), ..Scope::none() },
            ),
    {
        let mut endpoint = String::new();
        endpoint.append("courses/");
        push_u64(&mut endpoint, self.id);
        endpoint.append("/discussion_topics");
        assert(endpoint@ =~= "courses/"@ + dec(self.id as nat) + "/discussion_topics"@);
        let form: Vec<(String, String)> = wrap_params("discussion_topic", &params);
        assert(pairs_view(form@) =~= canvas_params("discussion_topic"@, params));
        scoped(self.req().post(endpoint.as_str(), form), Scope { course_id: Some(Some(self.id)), ..Scope::empty() })
    }

    /// Stream all files in this course.
    ///
    /// # Canvas API
    /// `GET /api/v1/courses/:id/files`
    pub fn get_files(&self) -> (s: PageStream<File>)
        requires
            self.requester is Some,
        ensures
            lists(s, *self.requester.unwrap(), self.requester.unwrap().base(), "courses/"@ + dec(self.id as nat) + "/files"@, seq![], Scope::none()),
    {
        let mut endpoint = String::new();
        endpoint.append("courses/");
        push_u64(&mut endpoint, self.id);
        endpoint.append("/files");
        assert(endpoint@ =~= "courses/"@ + dec(self.id as nat) + "/files"@);
        let form: Vec<(String, String)> = Vec::new();
        assert(pairs_view(form@) =~= seq![]);
        PageStream::new(share(self.req()), endpoint.as_str(), form).with_scope(Scope::empty())
    }

    /// Stream all tabs in this course.
    ///
    /// # Canvas API
    /// `GET /api/v1/courses/:id/tabs`
    pub fn get_tabs(&self) -> (s: PageStream<JsonValue>)
        requires
            self.requester is Some,
        ensures
            lists(s, *self.requester.unwrap(), self.requester.unwrap().base(), "courses/"@ + dec(self.id as nat) + "/tabs"@, seq![], Scope { course_id: Some(Some(self.id)), ..Scope::none() }),
    {
        let mut endpoint = String::new();
        endpoint.append("courses/");
        push_u64(&mut endpoint, self.id);
        endpoint.append("/tabs");
        assert(endpoint@ =~= "courses/"@ + dec(self.id as nat) + "/tabs"@);
        let form: Vec<(String, String)> = Vec::new();
        assert(pairs_view(form@) =~= seq![]);
        PageStream::new(share(self.req()), endpoint.as_str(), form).with_scope(Scope { course_id: Some(Some(self.id)), ..Scope::empty() })
    }

    /// Stream all collaborations in this course.
    ///
    /// # Canvas API
    /// `GET /api/v1/courses/:id/collaborations`
    pub fn get_collaborations(&self) -> (s: PageStream<Collaboration>)
        requires
            self.requester is Some,
        ensures
            lists(s, *self.requester.unwrap(), self.requester.unwrap().base(), "courses/"@ + dec(self.id as nat) + "/collaborations"@, seq![], Scope::none()),
    {
        let mut endpoint = String::new();
        endpoint.append("courses/");
        push_u64(&mut endpoint, self.id);
        endpoint.append("/collaborations");
        assert(endpoint@ =~= "courses/"@ + dec(self.id as nat) + "/collaborations"@);
        let form: Vec<(String, String)> = Vec::new();
        assert(pairs_view(form@) =~= seq![]);
        PageStream::new(share(self.req()), endpoint.as_str(), form).with_scope(Scope::empty())
    }

    /// Stream all groups in this course.
    ///
    /// # Canvas API
    /// `GET /api/v1/courses/:id/groups`
    pub fn get_groups(&self) -> (s: PageStream<Group>)
        requires
            self.requester is Some,
        ensures
            lists(s, *self.requester.unwrap(), self.requester.unwrap().base(), "courses/"@ + dec(self.id as nat) + "/groups"@, seq![], Scope::none()),
    {
        let mut endpoint = String::new();
        endpoint.append("courses/");
        push_u64(&mut endpoint, self.id);
        endpoint.append("/groups");
        assert(endpoint@ =~= "courses/"@ + dec(self.id as nat) + "/groups"@);
        let form: Vec<(String, String)> = Vec::new();
        assert(pairs_view(form@) =~= seq![]);
        PageStream::new(share(self.req()), endpoint.as_str(), form).with_scope(Scope::empty())
    }

    /// Stream all group categories in this course.
    ///
    /// # Canvas API
    /// `GET /api/v1/courses/:id/group_categories`
    pub fn get_group_categories(&self) -> (s: PageStream<GroupCategory>)
        requires
            self.requester is Some,
        ensures
            lists(s, *self.requester.unwrap(), self.requester.unwrap().base(), "courses/"@ + dec(self.id as nat) + "/group_categories"@, seq![], Scope::none()),
    {
        let mut endpoint = String::new();
        endpoint.append("courses/");
        push_u64(&mut endpoint, self.id);
        endpoint.append("/group_categories");
        assert(endpoint@ =~= "courses/"@ + dec(self.id as nat) + "/group_categories"@);
        let form: Vec<(String, String)> = Vec::new();
        assert(pairs_view(form@) =~= seq![]);
        PageStream::new(share(self.req()), endpoint.as_str(), form).with_scope(Scope::empty())
    }

    /// Create a group category in this course.
    ///
    /// # Canvas API
    /// `POST /api/v1/courses/:id/group_categories`
    pub fn create_group_category(&self, params: JsonValue) -> (r: Result<Request>)
        requires
            self.requester is Some,
        ensures
            self.requester.unwrap().sends_scoped(
                r,
                Method::Post,
                "courses/"@ + dec(self.id as nat) + "/group_categories"@,
                PayloadView::Form(canvas_params("group_category"@, params)),
                Scope::none(),
            ),
    {
        let mut endpoint = String::new();
        endpoint.append("courses/");
        push_u64(&mut endpoint, self.id);
        endpoint.append("/group_categories");
        assert(endpoint@ =~= "courses/"@ + dec(self.id as nat) + "/group_categories"@);
        let form: Vec<(String, String)> = wrap_params("group_category", &params);
        assert(pairs_view(form@) =~= canvas_params("group_category"@, params));
        scoped(self.req().post(endpoint.as_str(), form), Scope::empty())
    }

    /// Fetch a single external tool by ID.
    ///
    /// # Canvas API
    /// `GET /api/v1/courses/:course_id/external_tools/:id`
    pub fn get_external_tool(&self, tool_id: u64) -> (r: Result<Request>)
        requires
            self.requester is Some,
        ensures
            self.requester.unwrap().sends_scoped(
                r,
                Method::Get,
                "courses/"@ + dec(self.id as nat) + "/external_tools/"@ + dec(tool_id as nat),
                PayloadView::Query(seq![]),
                Scope::none(),
            ),
    {
        let mut endpoint = String::new();
        endpoint.append("courses/");
        push_u64(&mut endpoint, self.id);
        endpoint.append("/external_tools/");
        push_u64(&mut endpoint, tool_id);
        assert(endpoint@ =~= "courses/"@ + dec(self.id as nat) + "/external_tools/"@ + dec(tool_id as nat));
        let form: Vec<(String, String)> = Vec::new();
        assert(pairs_view(form@) =~= seq![]);
        scoped(self.req().get(endpoint.as_str(), form), Scope::empty())
    }

    /// Stream all external tools for this course.
    ///
    /// # Canvas API
    /// `GET /api/v1/courses/:course_id/external_tools`
    pub fn get_external_tools(&self) -> (s: PageStream<ExternalTool>)
        requires
            self.requester is Some,
        ensures
            lists(s, *self.requester.unwrap(), self.requester.unwrap().base(), "courses/"@ + dec(self.id as nat) + "/external_tools"@, seq![], Scope::none()),
    {
        let mut endpoint = String::new();
        endpoint.append("courses/");
        push_u64(&mut endpoint, self.id);
        endpoint.append("/external_tools");
        assert(endpoint@ =~= "courses/"@ + dec(self.id as nat) + "/external_tools"@);
        let form: Vec<(String, String)> = Vec::new();
        assert(pairs_view(form@) =~= seq![]);
        PageStream::new(share(self.req()), endpoint.as_str(), form).with_scope(Scope::empty())
    }

    /// Create an external tool on this course.
    ///
    /// # Canvas API
    /// `POST /api/v1/courses/:course_id/external_tools`
    pub fn create_external_tool(&self, params: ExternalToolParams) -> (r: Result<Request>)
        requires
            self.requester is Some,
        ensures
            self.requester.unwrap().sends_scoped(
                r,
                Method::Post,
                "courses/"@ + dec(self.id as nat) + "/external_tools"@,
                PayloadView::Form(params.form_view("external_tool"@)),
                Scope::none(),
            ),
    {
        let mut endpoint = String::new();
        endpoint.append("courses/");
        push_u64(&mut endpoint, self.id);
        endpoint.append("/external_tools");
        assert(endpoint@ =~= "courses/"@ + dec(self.id as nat) + "/external_tools"@);
        let form: Vec<(String, String)> = params.to_form("external_tool");
        assert(pairs_view(form@) =~= params.form_view("external_tool"@));
        scoped(self.req().post(endpoint.as_str(), form), Scope::empty())
    }

    /// Fetch a single rubric by ID.
    ///
    /// # Canvas API
    /// `GET /api/v1/courses/:course_id/rubrics/:id`
    pub fn get_rubric(&self, rubric_id: u64) -> (r: Result<Request>)
        requires
            self.requester is Some,
        ensures
            self.requester.unwrap().sends_scoped(
                r,
                Method::Get,
                "courses/"@ + dec(self.id as nat) + "/rubrics/"@ + dec(rubric_id as nat),
                PayloadView::Query(seq![]),
                Scope::none(),
            ),
    {
        let mut endpoint = String::new();
        endpoint.append("courses/");
        push_u64(&mut endpoint, self.id);
        endpoint.append("/rubrics/");
        push_u64(&mut endpoint, rubric_id);
        assert(endpoint@ =~= "courses/"@ + dec(self.id as nat) + "/rubrics/"@ + dec(rubric_id as nat));
        let form: Vec<(String, String)> = Vec::new();
        assert(pairs_view(form@) =~= seq![]);
        scoped(self.req().get(endpoint.as_str(), form), Scope::empty())
    }

    /// Stream all rubrics for this course.
    ///
    /// # Canvas API
    /// `GET /api/v1/courses/:course_id/rubrics`
    pub fn get_rubrics(&self) -> (s: PageStream<JsonValue>)
        requires
            self.requester is Some,
        ensures
            lists(s, *self.requester.unwrap(), self.requester.unwrap().base(), "courses/"@ + dec(self.id as nat) + "/rubrics"@, seq![], Scope::none()),
    {
        let mut endpoint = String::new();
        endpoint.append("courses/");
        push_u64(&mut endpoint, self.id);
        endpoint.append("/rubrics");
        assert(endpoint@ =~= "courses/"@ + dec(self.id as nat) + "/rubrics"@);
        let form: Vec<(String, String)> = Vec::new();
        assert(pairs_view(form@) =~= seq![]);
        PageStream::new(share(self.req()), endpoint.as_str(), form).with_scope(Scope::empty())
    }

    /// Create a rubric in this course.
    ///
    /// # Canvas API
    /// `POST /api/v1/courses/:course_id/rubrics`
    pub fn create_rubric(&self, params: JsonValue) -> (r: Result<Request>)
        requires
            self.requester is Some,
        ensures
            self.requester.unwrap().sends_scoped(
                r,
                Method::Post,
                "courses/"@ + dec(self.id as nat) + "/rubrics"@,
                PayloadView::Form(canvas_params("rubric"@, params)),
                Scope::none(),
            ),
    {
        let mut endpoint = String::new();
        endpoint.append("courses/");
        push_u64(&mut endpoint, self.id);
        endpoint.append("/rubrics");
        assert(endpoint@ =~= "courses/"@ + dec(self.id as nat) + "/rubrics"@);
        let form: Vec<(String, String)> = wrap_params("rubric", &params);
        assert(pairs_view(form@) =~= canvas_params("rubric"@, params));
        scoped(self.req().post(endpoint.as_str(), form), Scope::empty())
    }

    /// Fetch a single rubric association by ID.
    ///
    /// # Canvas API
    /// `GET /api/v1/courses/:course_id/rubric_associations/:id`
    pub fn get_rubric_association(&self, association_id: u64) -> (r: Result<Request>)
        requires
            self.requester is Some,
        ensures
            self.requester.unwrap().sends_scoped(
                r,
                Method::Get,
                "courses/"@ + dec(self.id as nat) + "/rubric_associations/"@ + dec(association_id as nat),
                PayloadView::Query(seq![]),
                Scope::none(),
            ),
    {
        let mut endpoint = String::new();
        endpoint.append("courses/");
        push_u64(&mut endpoint, self.id);
        endpoint.append("/rubric_associations/");
        push_u64(&mut endpoint, association_id);
        assert(endpoint@ =~= "courses/"@ + dec(self.id as nat) + "/rubric_associations/"@ + dec(association_id as nat));
        let form: Vec<(String, String)> = Vec::new();
        assert(pairs_view(form@) =~= seq![]);
        scoped(self.req().get(endpoint.as_str(), form), Scope::empty())
    }

    /// Stream all rubric associations for this course.
    ///
    /// # Canvas API
    /// `GET /api/v1/courses/:course_id/rubric_associations`
    pub fn get_rubric_associations(&self) -> (s: PageStream<JsonValue>)
        requires
            self.requester is Some,
        ensures
            lists(s, *self.requester.unwrap(), self.requester.unwrap().base(), "courses/"@ + dec(self.id as nat) + "/rubric_associations"@, seq![], Scope::none()),
    {
        let mut endpoint = String::new();
        endpoint.append("courses/");
        push_u64(&mut endpoint, self.id);
        endpoint.append("/rubric_associations");
        assert(endpoint@ =~= "courses/"@ + dec(self.id as nat) + "/rubric_associations"@);
        let form: Vec<(String, String)> = Vec::new();
        assert(pairs_view(form@) =~= seq![]);
        PageStream::new(share(self.req()), endpoint.as_str(), form).with_scope(Scope::empty())
    }

    /// Fetch the blueprint template for this course.
    ///
    /// `template_id` is typically `"default"` or a numeric ID.
    ///
    /// # Canvas API
    /// `GET /api/v1/courses/:course_id/blueprint_templates/:template_id`
    pub fn get_blueprint(&self, template_id: &str) -> (r: Result<Request>)
        requires
            self.requester is Some,
        ensures
            self.requester.unwrap().sends_scoped(
                r,
                Method::Get,
                "courses/"@ + dec(self.id as nat) + "/blueprint_templates/"@ + template_id@,
                PayloadView::Query(seq![]),
                Scope::none(),
            ),
    {
        let mut endpoint = String::new();
        endpoint.append("courses/");
        push_u64(&mut endpoint, self.id);
        endpoint.append("/blueprint_templates/");
        endpoint.append(template_id);
        assert(endpoint@ =~= "courses/"@ + dec(self.id as nat) + "/blueprint_templates/"@ + template_id@);
        let form: Vec<(String, String)> = Vec::new();
        assert(pairs_view(form@) =~= seq![]);
        scoped(self.req().get(endpoint.as_str(), form), Scope::empty())
    }

    /// Stream blueprint subscriptions for this (child) course.
    ///
    /// # Canvas API
    /// `GET /api/v1/courses/:course_id/blueprint_subscriptions`
    pub fn get_blueprint_subscriptions(&self) -> (s: PageStream<BlueprintSubscription>)
        requires
            self.requester is Some,
        ensures
            lists(s, *self.requester.unwrap(), self.requester.unwrap().base(), "courses/"@ + dec(self.id as nat) + "/blueprint_subscriptions"@, seq![], Scope::none()),
    {
        let mut endpoint = String::new();
        endpoint.append("courses/");
        push_u64(&mut endpoint, self.id);
        endpoint.append("/blueprint_subscriptions");
        assert(endpoint@ =~= "courses/"@ + dec(self.id as nat) + "/blueprint_subscriptions"@);
        let form: Vec<(String, String)> = Vec::new();
        assert(pairs_view(form@) =~= seq![]);
        PageStream::new(share(self.req()), endpoint.as_str(), form).with_scope(Scope::empty())
    }

    /// Fetch a single content migration by ID.
    ///
    /// # Canvas API
    /// `GET /api/v1/courses/:course_id/content_migrations/:id`
    pub fn get_content_migration(&self, migration_id: u64) -> (r: Result<Request>)
        requires
            self.requester is Some,
        ensures
            self.requester.unwrap().sends_scoped(
                r,
                Method::Get,
                "courses/"@ + dec(self.id as nat) + "/content_migrations/"@ + dec(migration_id as nat),
                PayloadView::Query(seq![]),
                Scope::none(),
            ),
    {
        let mut endpoint = String::new();
        endpoint.append("courses/");
        push_u64(&mut endpoint, self.id);
        endpoint.append("/content_migrations/");
        push_u64(&mut endpoint, migration_id);
        assert(endpoint@ =~= "courses/"@ + dec(self.id as nat) + "/content_migrations/"@ + dec(migration_id as nat));
        let form: Vec<(String, String)> = Vec::new();
        assert(pairs_view(form@) =~= seq![]);
        scoped(self.req().get(endpoint.as_str(), form), Scope::empty())
    }

    /// Stream all content migrations for this course.
    ///
    /// # Canvas API
    /// `GET /api/v1/courses/:course_id/content_migrations`
    pub fn get_content_migrations(&self) -> (s: PageStream<ContentMigration>)
        requires
            self.requester is Some,
        ensures
            lists(s, *self.requester.unwrap(), self.requester.unwrap().base(), "courses/"@ + dec(self.id as nat) + "/content_migrations"@, seq![], Scope::none()),
    {
        let mut endpoint = String::new();
        endpoint.append("courses/");
        push_u64(&mut endpoint, self.id);
        endpoint.append("/content_migrations");
        assert(endpoint@ =~= "courses/"@ + dec(self.id as nat) + "/content_migrations"@);
        let form: Vec<(String, String)> = Vec::new();
        assert(pairs_view(form@) =~= seq![]);
        PageStream::new(share(self.req()), endpoint.as_str(), form).with_scope(Scope::empty())
    }

    /// Stream available content migration types for this course.
    ///
    /// # Canvas API
    /// `GET /api/v1/courses/:course_id/content_migrations/migrators`
    pub fn get_migrators(&self) -> (s: PageStream<Migrator>)
        requires
            self.requester is Some,
        ensures
            lists(s, *self.requester.unwrap(), self.requester.unwrap().base(), "courses/"@ + dec(self.id as nat) + "/content_migrations/migrators"@, seq![], Scope::none()),
    {
        let mut endpoint = String::new();
        endpoint.append("courses/");
        push_u64(&mut endpoint, self.id);
        endpoint.append("/content_migrations/migrators");
        assert(endpoint@ =~= "courses/"@ + dec(self.id as nat) + "/content_migrations/migrators"@);
        let form: Vec<(String, String)> = Vec::new();
        assert(pairs_view(form@) =~= seq![]);
        PageStream::new(share(self.req()), endpoint.as_str(), form).with_scope(Scope::empty())
    }

    /// Stream all outcome group links for this course.
    ///
    /// # Canvas API
    /// `GET /api/v1/courses/:course_id/outcome_group_links`
    pub fn get_outcome_group_links(&self) -> (s: PageStream<OutcomeLink>)
        requires
            self.requester is Some,
        ensures
            lists(s, *self.requester.unwrap(), self.requester.unwrap().base(), "courses/"@ + dec(self.id as nat) + "/outcome_group_links"@, seq![], Scope::none()),
    {
        let mut endpoint = String::new();
        endpoint.append("courses/");
        push_u64(&mut endpoint, self.id);
        endpoint.append("/outcome_group_links");
        assert(endpoint@ =~= "courses/"@ + dec(self.id as nat) + "/outcome_group_links"@);
        let form: Vec<(String, String)> = Vec::new();
        assert(pairs_view(form@) =~= seq![]);
        PageStream::new(share(self.req()), endpoint.as_str(), form).with_scope(Scope::empty())
    }

    /// Fetch the root outcome group for this course.
    ///
    /// # Canvas API
    /// `GET /api/v1/courses/:course_id/root_outcome_group`
    pub fn get_root_outcome_group(&self) -> (r: Result<Request>)
        requires
            self.requester is Some,
        ensures
            self.requester.unwrap().sends_scoped(
                r,
                Method::Get,
                "courses/"@ + dec(self.id as nat) + "/root_outcome_group"@,
                PayloadView::Query(seq![]),
                Scope::none(),
            ),
    {
        let mut endpoint = String::new();
        endpoint.append("courses/");
        push_u64(&mut endpoint, self.id);
        endpoint.append("/root_outcome_group");
        assert(endpoint@ =~= "courses/"@ + dec(self.id as nat) + "/root_outcome_group"@);
        let form: Vec<(String, String)> = Vec::new();
        assert(pairs_view(form@) =~= seq![]);
        scoped(self.req().get(endpoint.as_str(), form), Scope::empty())
    }

    /// Fetch a single outcome group by ID.
    ///
    /// # Canvas API
    /// `GET /api/v1/courses/:course_id/outcome_groups/:id`
    pub fn get_outcome_group(&self, group_id: u64) -> (r: Result<Request>)
        requires
            self.requester is Some,
        ensures
            self.requester.unwrap().sends_scoped(
                r,
                Method::Get,
                "courses/"@ + dec(self.id as nat) + "/outcome_groups/"@ + dec(group_id as nat),
                PayloadView::Query(seq![]),
                Scope::none(),
            ),
    {
        let mut endpoint = String::new();
        endpoint.append("courses/");
        push_u64(&mut endpoint, self.id);
        endpoint.append("/outcome_groups/");
        push_u64(&mut endpoint, group_id);
        assert(endpoint@ =~= "courses/"@ + dec(self.id as nat) + "/outcome_groups/"@ + dec(group_id as nat));
        let form: Vec<(String, String)> = Vec::new();
        assert(pairs_view(form@) =~= seq![]);
        scoped(self.req().get(endpoint.as_str(), form), Scope::empty())
    }

    /// Create a top-level outcome group on this course.
    ///
    /// # Canvas API
    /// `POST /api/v1/courses/:course_id/outcome_groups`
    pub fn create_outcome_group(&self, params: UpdateOutcomeGroupParams) -> (r: Result<Request>)
        requires
            self.requester is Some,
        ensures
            self.requester.unwrap().sends_scoped(
                r,
                Method::Post,
                "courses/"@ + dec(self.id as nat) + "/outcome_groups"@,
                PayloadView::Form(params.form_view("outcome_group"@)),
                Scope::none(),
            ),
    {
        let mut endpoint = String::new();
        endpoint.append("courses/");
        push_u64(&mut endpoint, self.id);
        endpoint.append("/outcome_groups");
        assert(endpoint@ =~= "courses/"@ + dec(self.id as nat) + "/outcome_groups"@);
        let form: Vec<(String, String)> = params.to_form("outcome_group");
        assert(pairs_view(form@) =~= params.form_view("outcome_group"@));
        scoped(self.req().post(endpoint.as_str(), form), Scope::empty())
    }

    /// Stream all custom gradebook columns for this course.
    ///
    /// # Canvas API
    /// `GET /api/v1/courses/:id/custom_gradebook_columns`
    pub fn get_custom_columns(&self) -> (s: PageStream<CustomGradebookColumn>)
        requires
            self.requester is Some,
        ensures
            lists(s, *self.requester.unwrap(), self.requester.unwrap().base(), "courses/"@ + dec(self.id as nat) + "/custom_gradebook_columns"@, seq![], Scope { course_id: Some(Some(self.id)), ..Scope::none() }),
    {
        let mut endpoint = String::new();
        endpoint.append("courses/");
        push_u64(&mut endpoint, self.id);
        endpoint.append("/custom_gradebook_columns");
        assert(endpoint@ =~= "courses/"@ + dec(self.id as nat) + "/custom_gradebook_columns"@);
        let form: Vec<(String, String)> = Vec::new();
        assert(pairs_view(form@) =~= seq![]);
        PageStream::new(share(self.req()), endpoint.as_str(), form).with_scope(Scope { course_id: Some(Some(self.id)), ..Scope::empty() })
    }

    /// Create a new custom gradebook column in this course.
    ///
    /// # Canvas API
    /// `POST /api/v1/courses/:id/custom_gradebook_columns`
    pub fn create_custom_column(&self, params: CustomGradebookColumnParams) -> (r: Result<Request>)
        requires
            self.requester is Some,
        ensures
            self.requester.unwrap().sends_scoped(
                r,
                Method::Post,
                "courses/"@ + dec(self.id as nat) + "/custom_gradebook_columns"@,
                PayloadView::Form(params.form_view("column"@)),
                Scope { course_id: Some(Some(self.id)), ..Scope::none() },
            ),
    {
        let mut endpoint = String::new();
        endpoint.append("courses/");
        push_u64(&mut endpoint, self.id);
        endpoint.append("/custom_gradebook_columns");
        assert(endpoint@ =~= "courses/"@ + dec(self.id as nat) + "/custom_gradebook_columns"@);
        let form: Vec<(String, String)> = params.to_form("column");
        assert(pairs_view(form@) =~= params.form_view("column"@));
        scoped(self.req().post(endpoint.as_str(), form), Scope { course_id: Some(Some(self.id)), ..Scope::empty() })
    }

    /// Stream the days for which there is gradebook history in this course.
    ///
    /// # Canvas API
    /// `GET /api/v1/courses/:course_id/gradebook_history/days`
    pub fn get_gradebook_history_dates(&self) -> (s: PageStream<Day>)
        requires
            self.requester is Some,
        ensures
            lists(s, *self.requester.unwrap(), self.requester.unwrap().base(), "courses/"@ + dec(self.id as nat) + "/gradebook_history/days"@, seq![], Scope::none()),
    {
        let mut endpoint = String::new();
        endpoint.append("courses/");
        push_u64(&mut endpoint, self.id);
        endpoint.append("/gradebook_history/days");
        assert(endpoint@ =~= "courses/"@ + dec(self.id as nat) + "/gradebook_history/days"@);
        let form: Vec<(String, String)> = Vec::new();
        assert(pairs_view(form@) =~= seq![]);
        PageStream::new(share(self.req()), endpoint.as_str(), form).with_scope(Scope::empty())
    }

    /// Stream graders who worked in this course on a given date.
    ///
    /// `date` should be formatted as `YYYY-MM-DD`.
    ///
    /// # Canvas API
    /// `GET /api/v1/courses/:course_id/gradebook_history/:date`
    pub fn get_gradebook_history_details(&self, date: &str) -> (s: PageStream<Grader>)
        requires
            self.requester is Some,
        ensures
            lists(s, *self.requester.unwrap(), self.requester.unwrap().base(), "courses/"@ + dec(self.id as nat) + "/gradebook_history/"@ + date@, seq![], Scope::none()),
    {
        let mut endpoint = String::new();
        endpoint.append("courses/");
        push_u64(&mut endpoint, self.id);
        endpoint.append("/gradebook_history/");
        endpoint.append(date);
        assert(endpoint@ =~= "courses/"@ + dec(self.id as nat) + "/gradebook_history/"@ + date@);
        let form: Vec<(String, String)> = Vec::new();
        assert(pairs_view(form@) =~= seq![]);
        PageStream::new(share(self.req()), endpoint.as_str(), form).with_scope(Scope::empty())
    }

    /// Stream submission versions graded by a specific grader on a specific assignment and date.
    ///
    /// # Canvas API
    /// `GET /api/v1/courses/:course_id/gradebook_history/:date/graders/:grader_id/assignments/:assignment_id/submissions`
    pub fn get_submission_history(&self, date: &str, grader_id: u64, assignment_id: u64) -> (s: PageStream<SubmissionHistory>)
        requires
            self.requester is Some,
        ensures
            lists(s, *self.requester.unwrap(), self.requester.unwrap().base(), "courses/"@ + dec(self.id as nat) + "/gradebook_history/"@ + date@ + "/graders/"@ + dec(grader_id as nat) + "/assignments/"@ + dec(assignment_id as nat) + "/submissions"@, seq![], Scope::none()),
    {
        let mut endpoint = String::new();
        endpoint.append("courses/");
        push_u64(&mut endpoint, self.id);
        endpoint.append("/gradebook_history/");
        endpoint.append(date);
        endpoint.append("/graders/");
        push_u64(&mut endpoint, grader_id);
        endpoint.append("/assignments/");
        push_u64(&mut endpoint, assignment_id);
        endpoint.append("/submissions");
        assert(endpoint@ =~= "courses/"@ + dec(self.id as nat) + "/gradebook_history/"@ + date@ + "/graders/"@ + dec(grader_id as nat) + "/assignments/"@ + dec(assignment_id as nat) + "/submissions"@);
        let form: Vec<(String, String)> = Vec::new();
        assert(pairs_view(form@) =~= seq![]);
        PageStream::new(share(self.req()), endpoint.as_str(), form).with_scope(Scope::empty())
    }

    /// Stream all submission versions (uncollated) for this course.
    ///
    /// # Canvas API
    /// `GET /api/v1/courses/:course_id/gradebook_history/feed`
    pub fn get_uncollated_submissions(&self) -> (s: PageStream<SubmissionVersion>)
        requires
            self.requester is Some,
        ensures
            lists(s, *self.requester.unwrap(), self.requester.unwrap().base(), "courses/"@ + dec(self.id as nat) + "/gradebook_history/feed"@, seq![], Scope::none()),
    {
        let mut endpoint = String::new();
        endpoint.append("courses/");
        push_u64(&mut endpoint, self.id);
        endpoint.append("/gradebook_history/feed");
        assert(endpoint@ =~= "courses/"@ + dec(self.id as nat) + "/gradebook_history/feed"@);
        let form: Vec<(String, String)> = Vec::new();
        assert(pairs_view(form@) =~= seq![]);
        PageStream::new(share(self.req()), endpoint.as_str(), form).with_scope(Scope::empty())
    }

    /// Stream all New Quizzes for this course.
    ///
    /// # Canvas API
    /// `GET /api/quiz/v1/courses/:course_id/quizzes`
    pub fn get_new_quizzes(&self) -> (s: PageStream<NewQuiz>)
        requires
            self.requester is Some,
        ensures
            lists(s, *self.requester.unwrap(), self.requester.unwrap().nq_root(), "courses/"@ + dec(self.id as nat) + "/quizzes"@, seq![], Scope { course_id: Some(Some(self.id)), ..Scope::none() }),
    {
        let mut endpoint = String::new();
        endpoint.append("courses/");
        push_u64(&mut endpoint, self.id);
        endpoint.append("/quizzes");
        assert(endpoint@ =~= "courses/"@ + dec(self.id as nat) + "/quizzes"@);
        let form: Vec<(String, String)> = Vec::new();
        assert(pairs_view(form@) =~= seq![]);
        PageStream::new_nq(share(self.req()), endpoint.as_str(), form).with_scope(Scope { course_id: Some(Some(self.id)), ..Scope::empty() })
    }

    /// Stream all grading periods for this course.
    ///
    /// # Canvas API
    /// `GET /api/v1/courses/:course_id/grading_periods`
    pub fn get_grading_periods(&self) -> (s: PageStream<GradingPeriod>)
        requires
            self.requester is Some,
        ensures
            lists(s, *self.requester.unwrap(), self.requester.unwrap().base(), "courses/"@ + dec(self.id as nat) + "/grading_periods"@, seq![], Scope { course_id: Some(Some(self.id)), ..Scope::none() }),
    {
        let mut endpoint = String::new();
        endpoint.append("courses/");
        push_u64(&mut endpoint, self.id);
        endpoint.append("/grading_periods");
        assert(endpoint@ =~= "courses/"@ + dec(self.id as nat) + "/grading_periods"@);
        let form: Vec<(String, String)> = Vec::new();
        assert(pairs_view(form@) =~= seq![]);
        PageStream::new(share(self.req()), endpoint.as_str(), form).with_scope(Scope { course_id: Some(Some(self.id)), ..Scope::empty() })
    }

    /// Stream all grading standards for this course.
    ///
    /// # Canvas API
    /// `GET /api/v1/courses/:course_id/grading_standards`
    pub fn get_grading_standards(&self) -> (s: PageStream<GradingStandard>)
        requires
            self.requester is Some,
        ensures
            lists(s, *self.requester.unwrap(), self.requester.unwrap().base(), "courses/"@ + dec(self.id as nat) + "/grading_standards"@, seq![], Scope::none()),
    {
        let mut endpoint = String::new();
        endpoint.append("courses/");
        push_u64(&mut endpoint, self.id);
        endpoint.append("/grading_standards");
        assert(endpoint@ =~= "courses/"@ + dec(self.id as nat) + "/grading_standards"@);
        let form: Vec<(String, String)> = Vec::new();
        assert(pairs_view(form@) =~= seq![]);
        PageStream::new(share(self.req()), endpoint.as_str(), form).with_scope(Scope::empty())
    }

    /// Fetch a single content export by ID.
    ///
    /// # Canvas API
    /// `GET /api/v1/courses/:course_id/content_exports/:id`
    pub fn get_content_export(&self, export_id: u64) -> (r: Result<Request>)
        requires
            self.requester is Some,
        ensures
            self.requester.unwrap().sends_scoped(
                r,
                Method::Get,
                "courses/"@ + dec(self.id as nat) + "/content_exports/"@ + dec(export_id as nat),
                PayloadView::Query(seq![]),
                Scope::none(),
            ),
    {
        let mut endpoint = String::new();
        endpoint.append("courses/");
        push_u64(&mut endpoint, self.id);
        endpoint.append("/content_exports/");
        push_u64(&mut endpoint, export_id);
        assert(endpoint@ =~= "courses/"@ + dec(self.id as nat) + "/content_exports/"@ + dec(export_id as nat));
        let form: Vec<(String, String)> = Vec::new();
        assert(pairs_view(form@) =~= seq![]);
        scoped(self.req().get(endpoint.as_str(), form), Scope::empty())
    }

    /// Stream all content exports for this course.
    ///
    /// # Canvas API
    /// `GET /api/v1/courses/:course_id/content_exports`
    pub fn get_content_exports(&self) -> (s: PageStream<ContentExport>)
        requires
            self.requester is Some,
        ensures
            lists(s, *self.requester.unwrap(), self.requester.unwrap().base(), "courses/"@ + dec(self.id as nat) + "/content_exports"@, seq![], Scope::none()),
    {
        let mut endpoint = String::new();
        endpoint.append("courses/");
        push_u64(&mut endpoint, self.id);
        endpoint.append("/content_exports");
        assert(endpoint@ =~= "courses/"@ + dec(self.id as nat) + "/content_exports"@);
        let form: Vec<(String, String)> = Vec::new();
        assert(pairs_view(form@) =~= seq![]);
        PageStream::new(share(self.req()), endpoint.as_str(), form).with_scope(Scope::empty())
    }

    /// Stream grade change audit events for this course.
    ///
    /// The Canvas API wraps the array in `{ "events": [...] }`; `PageStream`
    /// handles this automatically.
    ///
    /// # Canvas API
    /// `GET /api/v1/audit/grade_change/courses/:course_id`
    pub fn get_grade_change_events(&self) -> (s: PageStream<GradeChangeEvent>)
        requires
            self.requester is Some,
        ensures
            lists(s, *self.requester.unwrap(), self.requester.unwrap().base(), "audit/grade_change/courses/"@ + dec(self.id as nat), seq![], Scope::none()),
    {
        let mut endpoint = String::new();
        endpoint.append("audit/grade_change/courses/");
        push_u64(&mut endpoint, self.id);
        assert(endpoint@ =~= "audit/grade_change/courses/"@ + dec(self.id as nat));
        let form: Vec<(String, String)> = Vec::new();
        assert(pairs_view(form@) =~= seq![]);
        PageStream::new(share(self.req()), endpoint.as_str(), form).with_scope(Scope::empty())
    }

    /// Stream all feature flags for this course.
    ///
    /// # Canvas API
    /// `GET /api/v1/courses/:course_id/features`
    pub fn get_features(&self) -> (s: PageStream<Feature>)
        requires
            self.requester is Some,
        ensures
            lists(s, *self.requester.unwrap(), self.requester.unwrap().base(), "courses/"@ + dec(self.id as nat) + "/features"@, seq![], Scope::none()),
    {
        let mut endpoint = String::new();
        endpoint.append("courses/");
        push_u64(&mut endpoint, self.id);
        endpoint.append("/features");
        assert(endpoint@ =~= "courses/"@ + dec(self.id as nat) + "/features"@);
        let form: Vec<(String, String)> = Vec::new();
        assert(pairs_view(form@) =~= seq![]);
        PageStream::new(share(self.req()), endpoint.as_str(), form).with_scope(Scope::empty())
    }

    /// Fetch a specific feature flag for this course by feature name.
    ///
    /// # Canvas API
    /// `GET /api/v1/courses/:course_id/features/flags/:feature`
    pub fn get_feature_flag(&self, feature: &str) -> (r: Result<Request>)
        requires
            self.requester is Some,
        ensures
            self.requester.unwrap().sends_scoped(
                r,
                Method::Get,
                "courses/"@ + dec(self.id as nat) + "/features/flags/"@ + feature@,
                PayloadView::Query(seq![]),
                Scope::none(),
            ),
    {
        let mut endpoint = String::new();
        endpoint.append("courses/");
        push_u64(&mut endpoint, self.id);
        endpoint.append("/features/flags/");
        endpoint.append(feature);
        assert(endpoint@ =~= "courses/"@ + dec(self.id as nat) + "/features/flags/"@ + feature@);
        let form: Vec<(String, String)> = Vec::new();
        assert(pairs_view(form@) =~= seq![]);
        scoped(self.req().get(endpoint.as_str(), form), Scope::empty())
    }

    /// List all enabled feature names for this course.
    ///
    /// # Canvas API
    /// `GET /api/v1/courses/:course_id/features/enabled`
    pub fn get_enabled_features(&self) -> (r: Result<Request>)
        requires
            self.requester is Some,
        ensures
            self.requester.unwrap().sends_scoped(
                r,
                Method::Get,
                "courses/"@ + dec(self.id as nat) + "/features/enabled"@,
                PayloadView::Query(seq![]),
                Scope::none(),
            ),
    {
        let mut endpoint = String::new();
        endpoint.append("courses/");
        push_u64(&mut endpoint, self.id);
        endpoint.append("/features/enabled");
        assert(endpoint@ =~= "courses/"@ + dec(self.id as nat) + "/features/enabled"@);
        let form: Vec<(String, String)> = Vec::new();
        assert(pairs_view(form@) =~= seq![]);
        scoped(self.req().get(endpoint.as_str(), form), Scope::empty())
    }

    /// Stream all LTI resource links in this course.
    ///
    /// # Canvas API
    /// `GET /api/v1/courses/:course_id/lti_resource_links`
    pub fn get_lti_resource_links(&self) -> (s: PageStream<LtiResourceLink>)
        requires
            self.requester is Some,
        ensures
            lists(s, *self.requester.unwrap(), self.requester.unwrap().base(), "courses/"@ + dec(self.id as nat) + "/lti_resource_links"@, seq![], Scope::none()),
    {
        let mut endpoint = String::new();
        endpoint.append("courses/");
        push_u64(&mut endpoint, self.id);
        endpoint.append("/lti_resource_links");
        assert(endpoint@ =~= "courses/"@ + dec(self.id as nat) + "/lti_resource_links"@);
        let form: Vec<(String, String)> = Vec::new();
        assert(pairs_view(form@) =~= seq![]);
        PageStream::new(share(self.req()), endpoint.as_str(), form).with_scope(Scope::empty())
    }

    /// Fetch a single LTI resource link.
    ///
    /// # Canvas API
    /// `GET /api/v1/courses/:course_id/lti_resource_links/:id`
    pub fn get_lti_resource_link(&self, link_id: u64) -> (r: Result<Request>)
        requires
            self.requester is Some,
        ensures
            self.requester.unwrap().sends_scoped(
                r,
                Method::Get,
                "courses/"@ + dec(self.id as nat) + "/lti_resource_links/"@ + dec(link_id as nat),
                PayloadView::Query(seq![]),
                Scope::none(),
            ),
    {
        let mut endpoint = String::new();
        endpoint.append("courses/");
        push_u64(&mut endpoint, self.id);
        endpoint.append("/lti_resource_links/");
        push_u64(&mut endpoint, link_id);
        assert(endpoint@ =~= "courses/"@ + dec(self.id as nat) + "/lti_resource_links/"@ + dec(link_id as nat));
        let form: Vec<(String, String)> = Vec::new();
        assert(pairs_view(form@) =~= seq![]);
        scoped(self.req().get(endpoint.as_str(), form), Scope::empty())
    }

    /// Conclude (soft-delete) this course.
    ///
    /// # Canvas API
    /// `DELETE /api/v1/courses/:id?event=conclude`
    pub fn conclude(&self) -> (r: Result<Request>)
        requires
            self.requester is Some,
        ensures
            self.requester.unwrap().sends_scoped(
                r,
                Method::Delete,
                "courses/"@ + dec(self.id as nat),
                PayloadView::Query(seq![("event"@, "conclude"@)]),
                Scope::none(),
            ),
    {
        let mut endpoint = String::new();
        endpoint.append("courses/");
        push_u64(&mut endpoint, self.id);
        assert(endpoint@ =~= "courses/"@ + dec(self.id as nat));
        let form: Vec<(String, String)> = vec![("event".to_owned(), "conclude".to_owned())];
        assert(pairs_view(form@) =~= seq![("event"@, "conclude"@)]);
        scoped(self.req().delete(endpoint.as_str(), form), Scope::empty())
    }

    /// Reset this course to a blank state (removes all content).
    ///
    /// # Canvas API
    /// `POST /api/v1/courses/:id/reset_content`
    pub fn reset(&self) -> (r: Result<Request>)
        requires
            self.requester is Some,
        ensures
            self.requester.unwrap().sends_scoped(
                r,
                Method::Post,
                "courses/"@ + dec(self.id as nat) + "/reset_content"@,
                PayloadView::Form(seq![]),
                Scope::none(),
            ),
    {
        let mut endpoint = String::new();
        endpoint.append("courses/");
        push_u64(&mut endpoint, self.id);
        endpoint.append("/reset_content");
        assert(endpoint@ =~= "courses/"@ + dec(self.id as nat) + "/reset_content"@);
        let form: Vec<(String, String)> = Vec::new();
        assert(pairs_view(form@) =~= seq![]);
        scoped(self.req().post(endpoint.as_str(), form), Scope::empty())
    }

    /// Get this course's settings.
    ///
    /// # Canvas API
    /// `GET /api/v1/courses/:id/settings`
    pub fn get_settings(&self) -> (r: Result<Request>)
        requires
            self.requester is Some,
        ensures
            self.requester.unwrap().sends_scoped(
                r,
                Method::Get,
                "courses/"@ + dec(self.id as nat) + "/settings"@,
                PayloadView::Query(seq![]),
                Scope::none(),
            ),
    {
        let mut endpoint = String::new();
        endpoint.append("courses/");
        push_u64(&mut endpoint, self.id);
        endpoint.append("/settings");
        assert(endpoint@ =~= "courses/"@ + dec(self.id as nat) + "/settings"@);
        let form: Vec<(String, String)> = Vec::new();
        assert(pairs_view(form@) =~= seq![]);
        scoped(self.req().get(endpoint.as_str(), form), Scope::empty())
    }

    /// Update this course's settings.
    ///
    /// # Canvas API
    /// `PUT /api/v1/courses/:id/settings`
    pub fn update_settings(&self, params: Vec<(String, String)>) -> (r: Result<Request>)
        requires
            self.requester is Some,
        ensures
            self.requester.unwrap().sends_scoped(
                r,
                Method::Put,
                "courses/"@ + dec(self.id as nat) + "/settings"@,
                PayloadView::Form(pairs_view(params@)),
                Scope::none(),
            ),
    {
        let mut endpoint = String::new();
        endpoint.append("courses/");
        push_u64(&mut endpoint, self.id);
        endpoint.append("/settings");
        assert(endpoint@ =~= "courses/"@ + dec(self.id as nat) + "/settings"@);
        let form: Vec<(String, String)> = params;
        assert(pairs_view(form@) =~= pairs_view(params@));
        scoped(self.req().put(endpoint.as_str(), form), Scope::empty())
    }

    /// Get the late policy for this course.
    ///
    /// # Canvas API
    /// `GET /api/v1/courses/:id/late_policy`
    pub fn get_late_policy(&self) -> (r: Result<Request>)
        requires
            self.requester is Some,
        ensures
            self.requester.unwrap().sends_scoped(
                r,
                Method::Get,
                "courses/"@ + dec(self.id as nat) + "/late_policy"@,
                PayloadView::Query(seq![]),
                Scope::none(),
            ),
    {
        let mut endpoint = String::new();
        endpoint.append("courses/");
        push_u64(&mut endpoint, self.id);
        endpoint.append("/late_policy");
        assert(endpoint@ =~= "courses/"@ + dec(self.id as nat) + "/late_policy"@);
        let form: Vec<(String, String)> = Vec::new();
        assert(pairs_view(form@) =~= seq![]);
        scoped(self.req().get(endpoint.as_str(), form), Scope::empty())
    }

    /// Stream multiple submissions for this course.
    ///
    /// # Canvas API
    /// `GET /api/v1/courses/:id/students/submissions`
    pub fn get_multiple_submissions(&self) -> (s: PageStream<JsonValue>)
        requires
            self.requester is Some,
        ensures
            lists(s, *self.requester.unwrap(), self.requester.unwrap().base(), "courses/"@ + dec(self.id as nat) + "/students/submissions"@, seq![], Scope { course_id: Some(Some(self.id)), ..Scope::none() }),
    {
        let mut endpoint = String::new();
        endpoint.append("courses/");
        push_u64(&mut endpoint, self.id);
        endpoint.append("/students/submissions");
        assert(endpoint@ =~= "courses/"@ + dec(self.id as nat) + "/students/submissions"@);
        let form: Vec<(String, String)> = Vec::new();
        assert(pairs_view(form@) =~= seq![]);
        PageStream::new(share(self.req()), endpoint.as_str(), form).with_scope(Scope { course_id: Some(Some(self.id)), ..Scope::empty() })
    }

    /// Enroll a user in this course.
    ///
    /// # Canvas API
    /// `POST /api/v1/courses/:id/enrollments`
    pub fn enroll_user(&self, user_id: u64, enrollment_type: &str) -> (r: Result<Request>)
        requires
            self.requester is Some,
        ensures
            self.requester.unwrap().sends_scoped(
                r,
                Method::Post,
                "courses/"@ + dec(self.id as nat) + "/enrollments"@,
                PayloadView::Form(seq![("enrollment[user_id]"@, dec(user_id as nat)), ("enrollment[type]"@, enrollment_type@)]),
                Scope::none(),
            ),
    {
        let mut endpoint = String::new();
        endpoint.append("courses/");
        push_u64(&mut endpoint, self.id);
        endpoint.append("/enrollments");
        assert(endpoint@ =~= "courses/"@ + dec(self.id as nat) + "/enrollments"@);
        let form: Vec<(String, String)> = vec![("enrollment[user_id]".to_owned(), u64_to_text(user_id)), ("enrollment[type]".to_owned(), enrollment_type.to_owned())];
        assert(pairs_view(form@) =~= seq![("enrollment[user_id]"@, dec(user_id as nat)), ("enrollment[type]"@, enrollment_type@)]);
        scoped(self.req().post(endpoint.as_str(), form), Scope::empty())
    }

    /// Bulk-update grades for this course asynchronously.
    ///
    /// # Canvas API
    /// `POST /api/v1/courses/:id/submissions/update_grades`
    pub fn submissions_bulk_update(&self, params: Vec<(String, String)>) -> (r: Result<Request>)
        requires
            self.requester is Some,
        ensures
            self.requester.unwrap().sends_scoped(
                r,
                Method::Post,
                "courses/"@ + dec(self.id as nat) + "/submissions/update_grades"@,
                PayloadView::Form(pairs_view(params@)),
                Scope::none(),
            ),
    {
        let mut endpoint = String::new();
        endpoint.append("courses/");
        push_u64(&mut endpoint, self.id);
        endpoint.append("/submissions/update_grades");
        assert(endpoint@ =~= "courses/"@ + dec(self.id as nat) + "/submissions/update_grades"@);
        let form: Vec<(String, String)> = params;
        assert(pairs_view(form@) =~= pairs_view(params@));
        scoped(self.req().post(endpoint.as_str(), form), Scope::empty())
    }
}

impl Course {
    /// The New Quizzes path of this course's quizzes.
    pub open spec fn new_quizzes_path(&self) -> Seq<char> {
        "courses/"@ + dec(self.id as nat) + "/quizzes"@
    }

    /// The New Quizzes path of the quiz of assignment `assignment_id`.
    pub open spec fn new_quiz_path(&self, assignment_id: Seq<char>) -> Seq<char> {
        "courses/"@ + dec(self.id as nat) + "/quizzes/"@ + assignment_id
    }

    /// Fetch a single New Quiz by its assignment ID.
    ///
    /// # Canvas API
    /// `GET /api/quiz/v1/courses/:course_id/quizzes/:assignment_id`
    pub fn get_new_quiz(&self, assignment_id: &str) -> (r: Result<Request>)
        requires
            self.requester is Some,
        ensures
            match url_join(self.requester.unwrap().nq_root(), self.new_quiz_path(assignment_id@)) {
                Some(u) => r matches Ok(q) && request_scoped(
                    q,
                    Method::Get,
                    u,
                    bearer(self.requester.unwrap().token()),
                    PayloadView::Query(seq![]),
                    Scope::of_course(self.id),
                ),
                None => r matches Err(CanvasError::Url(e)) && e == url_join_error(
                    self.requester.unwrap().nq_root(),
                    self.new_quiz_path(assignment_id@),
                ),
            },
    {
        let mut endpoint = String::new();
        endpoint.append("courses/");
        push_u64(&mut endpoint, self.id);
        endpoint.append("/quizzes/");
        endpoint.append(assignment_id);
        let form: Vec<(String, String)> = Vec::new();
        assert(pairs_view(form@) =~= seq![]);
        scoped(self.req().nq_get(endpoint.as_str(), form), Scope { course_id: Some(Some(self.id)), ..Scope::empty() })
    }

    /// Create a New Quiz in this course.
    ///
    /// # Canvas API
    /// `POST /api/quiz/v1/courses/:course_id/quizzes`
    pub fn create_new_quiz(&self, params: NewQuizParams) -> (r: Result<Request>)
        requires
            self.requester is Some,
        ensures
            match url_join(self.requester.unwrap().nq_root(), self.new_quizzes_path()) {
                Some(u) => r matches Ok(q) && q.method == Method::Post && q.url@ == u && q.authorization@
                    == bearer(self.requester.unwrap().token()) && q.scope == Scope::of_course(self.id)
                    && (q.payload matches Payload::Json(body) && object_holds(body, params.body_view())),
                None => r matches Err(CanvasError::Url(e)) && e == url_join_error(
                    self.requester.unwrap().nq_root(),
                    self.new_quizzes_path(),
                ),
            },
    {
        let mut endpoint = String::new();
        endpoint.append("courses/");
        push_u64(&mut endpoint, self.id);
        endpoint.append("/quizzes");
        let body = params.to_body();
        scoped(self.req().nq_post(endpoint.as_str(), body), Scope { course_id: Some(Some(self.id)), ..Scope::empty() })
    }

    /// Create a grading standard in this course.
    ///
    /// # Canvas API
    /// `POST /api/v1/courses/:course_id/grading_standards`
    pub fn create_grading_standard(&self, params: GradingStandardParams) -> (r: Result<Request>)
        requires
            self.requester is Some,
        ensures
            self.requester.unwrap().sends_scoped(
                r,
                Method::Post,
                "courses/"@ + dec(self.id as nat) + "/grading_standards"@,
                PayloadView::Form(params.standard_form_view()),
                Scope::none(),
            ),
    {
        let mut endpoint = String::new();
        endpoint.append("courses/");
        push_u64(&mut endpoint, self.id);
        endpoint.append("/grading_standards");
        let form = params.to_standard_form();
        scoped(self.req().post(endpoint.as_str(), form), Scope::empty())
    }

    /// Start a content export of this course.
    ///
    /// # Canvas API
    /// `POST /api/v1/courses/:course_id/content_exports`
    pub fn create_content_export(&self, params: ContentExportParams) -> (r: Result<Request>)
        requires
            self.requester is Some,
        ensures
            self.requester.unwrap().sends_scoped(
                r,
                Method::Post,
                "courses/"@ + dec(self.id as nat) + "/content_exports"@,
                PayloadView::Form(params.export_form_view()),
                Scope::none(),
            ),
    {
        let mut endpoint = String::new();
        endpoint.append("courses/");
        push_u64(&mut endpoint, self.id);
        endpoint.append("/content_exports");
        let form = params.to_export_form();
        scoped(self.req().post(endpoint.as_str(), form), Scope::empty())
    }

    /// Create an LTI resource link in this course.
    ///
    /// # Canvas API
    /// `POST /api/v1/courses/:course_id/lti_resource_links`
    pub fn create_lti_resource_link(&self, params: CreateLtiResourceLinkParams) -> (r: Result<Request>)
        requires
            self.requester is Some,
        ensures
            self.requester.unwrap().sends_scoped(
                r,
                Method::Post,
                "courses/"@ + dec(self.id as nat) + "/lti_resource_links"@,
                PayloadView::Form(params.flat_view()),
                Scope::none(),
            ),
    {
        let mut endpoint = String::new();
        endpoint.append("courses/");
        push_u64(&mut endpoint, self.id);
        endpoint.append("/lti_resource_links");
        let form = params.to_flat();
        scoped(self.req().post(endpoint.as_str(), form), Scope::empty())
    }
}

impl Course {
    /// Create a content migration on this course: `migration_type`, then the
    /// given parameters as they are.
    ///
    /// # Canvas API
    /// `POST /api/v1/courses/:course_id/content_migrations`
    pub fn create_content_migration(&self, migration_type: &str, params: Vec<(String, String)>) -> (r:
        Result<Request>)
        requires
            self.requester is Some,
        ensures
            self.requester.unwrap().sends_scoped(
                r,
                Method::Post,
                "courses/"@ + dec(self.id as nat) + "/content_migrations"@,
                PayloadView::Form(seq![("migration_type"@, migration_type@)] + pairs_view(params@)),
                Scope::none(),
            ),
    {
        let mut endpoint = String::new();
        endpoint.append("courses/");
        push_u64(&mut endpoint, self.id);
        endpoint.append("/content_migrations");
        let form = prepend_pair("migration_type", migration_type, params);
        scoped(self.req().post(endpoint.as_str(), form), Scope::empty())
    }
}

} // verus!
