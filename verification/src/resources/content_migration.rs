use vstd::prelude::*;
use std::sync::Arc;
use crate::error::Result;
use crate::http::{scoped, share, Method, PayloadView, Request, Requester, Scope};
use crate::json::{get, JsonValue};
use crate::pagination::{lists, PageStream};
use crate::params::pairs_view;
use crate::text::{chars_of, dec, occurs_at, push_u64, string_of, trim_char_start};

verus! {

/// A Canvas content migration job.
#[derive(Debug)]
pub struct ContentMigration {
    pub id: u64,
    pub migration_type: Option<String>,
    pub migration_type_title: Option<String>,
    pub course_id: Option<u64>,
    pub account_id: Option<u64>,
    pub group_id: Option<u64>,
    pub user_id: Option<u64>,
    pub workflow_state: Option<String>,
    /// A time, as RFC 3339 text.
    pub started_at: Option<String>,
    /// A time, as RFC 3339 text.
    pub finished_at: Option<String>,
    pub pre_attachment: Option<JsonValue>,
    pub progress_url: Option<String>,
    pub migration_issues_url: Option<String>,
    pub migration_issues_count: Option<u64>,
    pub attachment: Option<JsonValue>,
    pub settings: Option<JsonValue>,
    pub requester: Option<Arc<Requester>>,
}

impl ContentMigration {
    /// Takes in this ContentMigration as fetched: it keeps `requester` for its own calls.
    pub fn adopt(&mut self, requester: Arc<Requester>, scope: &Scope)
        ensures
            final(self).requester == Some(requester),
            final(self).id == old(self).id,
            final(self).migration_type == old(self).migration_type,
            final(self).migration_type_title == old(self).migration_type_title,
            final(self).course_id == old(self).course_id,
            final(self).account_id == old(self).account_id,
            final(self).group_id == old(self).group_id,
            final(self).user_id == old(self).user_id,
            final(self).workflow_state == old(self).workflow_state,
            final(self).started_at == old(self).started_at,
            final(self).finished_at == old(self).finished_at,
            final(self).pre_attachment == old(self).pre_attachment,
            final(self).progress_url == old(self).progress_url,
            final(self).migration_issues_url == old(self).migration_issues_url,
            final(self).migration_issues_count == old(self).migration_issues_count,
            final(self).attachment == old(self).attachment,
            final(self).settings == old(self).settings,
    {
        self.requester = Some(requester);
    }

    fn req(&self) -> (r: &Arc<Requester>)
        requires
            self.requester is Some,
        ensures
            *r == self.requester.unwrap(),
    {
        self.requester.as_ref().unwrap()
    }

    /// Fetch a single migration issue.
    ///
    /// # Canvas API
    /// `GET /api/v1/courses/:course_id/content_migrations/:id/migration_issues/:issue_id`
    pub fn get_migration_issue(&self, issue_id: u64) -> (r: Result<Request>)
        requires
            self.requester is Some,
            self.has_parent(),
        ensures
            self.requester.unwrap().sends_scoped(
                r,
                Method::Get,
                self.parent_type_view() + "s/"@ + dec(self.parent_id_view() as nat) + "/content_migrations/"@ + dec(self.id as nat) + "/migration_issues/"@ + dec(issue_id as nat),
                PayloadView::Query(seq![]),
                Scope::none(),
            ),
    {
        let parent_type_text = self.parent_type_text();
        let mut endpoint = String::new();
        endpoint.append(parent_type_text.as_str());
        endpoint.append("s/");
        push_u64(&mut endpoint, self.parent_id());
        endpoint.append("/content_migrations/");
        push_u64(&mut endpoint, self.id);
        endpoint.append("/migration_issues/");
        push_u64(&mut endpoint, issue_id);
        assert(endpoint@ =~= self.parent_type_view() + "s/"@ + dec(self.parent_id_view() as nat) + "/content_migrations/"@ + dec(self.id as nat) + "/migration_issues/"@ + dec(issue_id as nat));
        let form: Vec<(String, String)> = Vec::new();
        assert(pairs_view(form@) =~= seq![]);
        scoped(self.req().get(endpoint.as_str(), form), Scope::empty())
    }

    /// Stream all migration issues for this migration.
    ///
    /// # Canvas API
    /// `GET /api/v1/courses/:course_id/content_migrations/:id/migration_issues`
    pub fn get_migration_issues(&self) -> (s: PageStream<MigrationIssue>)
        requires
            self.requester is Some,
            self.has_parent(),
        ensures
            lists(s, *self.requester.unwrap(), self.requester.unwrap().base(), self.parent_type_view() + "s/"@ + dec(self.parent_id_view() as nat) + "/content_migrations/"@ + dec(self.id as nat) + "/migration_issues"@, seq![], Scope::none()),
    {
        let parent_type_text = self.parent_type_text();
        let mut endpoint = String::new();
        endpoint.append(parent_type_text.as_str());
        endpoint.append("s/");
        push_u64(&mut endpoint, self.parent_id());
        endpoint.append("/content_migrations/");
        push_u64(&mut endpoint, self.id);
        endpoint.append("/migration_issues");
        assert(endpoint@ =~= self.parent_type_view() + "s/"@ + dec(self.parent_id_view() as nat) + "/content_migrations/"@ + dec(self.id as nat) + "/migration_issues"@);
        let form: Vec<(String, String)> = Vec::new();
        assert(pairs_view(form@) =~= seq![]);
        PageStream::new(share(self.req()), endpoint.as_str(), form).with_scope(Scope::empty())
    }

    /// Fetch the progress object for this content migration.
    ///
    /// # Canvas API
    /// `GET /api/v1/courses/:course_id/content_migrations/:id/progress`
    pub fn get_progress(&self) -> (r: Result<Request>)
        requires
            self.requester is Some,
            self.has_parent(),
        ensures
            self.requester.unwrap().sends_scoped(
                r,
                Method::Get,
                self.parent_type_view() + "s/"@ + dec(self.parent_id_view() as nat) + "/content_migrations/"@ + dec(self.id as nat) + "/progress"@,
                PayloadView::Query(seq![]),
                Scope::none(),
            ),
    {
        let parent_type_text = self.parent_type_text();
        let mut endpoint = String::new();
        endpoint.append(parent_type_text.as_str());
        endpoint.append("s/");
        push_u64(&mut endpoint, self.parent_id());
        endpoint.append("/content_migrations/");
        push_u64(&mut endpoint, self.id);
        endpoint.append("/progress");
        assert(endpoint@ =~= self.parent_type_view() + "s/"@ + dec(self.parent_id_view() as nat) + "/content_migrations/"@ + dec(self.id as nat) + "/progress"@);
        let form: Vec<(String, String)> = Vec::new();
        assert(pairs_view(form@) =~= seq![]);
        scoped(self.req().get(endpoint.as_str(), form), Scope::empty())
    }

    /// Update this content migration.
    ///
    /// # Canvas API
    /// `PUT /api/v1/courses/:course_id/content_migrations/:id`
    pub fn update(&self, params: Vec<(String, String)>) -> (r: Result<Request>)
        requires
            self.requester is Some,
            self.has_parent(),
        ensures
            self.requester.unwrap().sends_scoped(
                r,
                Method::Put,
                self.parent_type_view() + "s/"@ + dec(self.parent_id_view() as nat) + "/content_migrations/"@ + dec(self.id as nat),
                PayloadView::Form(pairs_view(params@)),
                Scope::none(),
            ),
    {
        let parent_type_text = self.parent_type_text();
        let mut endpoint = String::new();
        endpoint.append(parent_type_text.as_str());
        endpoint.append("s/");
        push_u64(&mut endpoint, self.parent_id());
        endpoint.append("/content_migrations/");
        push_u64(&mut endpoint, self.id);
        assert(endpoint@ =~= self.parent_type_view() + "s/"@ + dec(self.parent_id_view() as nat) + "/content_migrations/"@ + dec(self.id as nat));
        let form: Vec<(String, String)> = params;
        assert(pairs_view(form@) =~= pairs_view(params@));
        scoped(self.req().put(endpoint.as_str(), form), Scope::empty())
    }
}

/// An issue encountered during a content migration.
#[derive(Debug)]
pub struct MigrationIssue {
    pub id: u64,
    pub content_migration_url: Option<String>,
    pub description: Option<String>,
    pub workflow_state: Option<String>,
    pub fix_issue_html_url: Option<String>,
    pub issue_type: Option<String>,
    pub error_report_html_url: Option<String>,
    pub error_message: Option<String>,
    /// A time, as RFC 3339 text.
    pub created_at: Option<String>,
    /// A time, as RFC 3339 text.
    pub updated_at: Option<String>,
    pub requester: Option<Arc<Requester>>,
}

impl MigrationIssue {
    /// Takes in this MigrationIssue as fetched: it keeps `requester` for its own calls.
    pub fn adopt(&mut self, requester: Arc<Requester>, scope: &Scope)
        ensures
            final(self).requester == Some(requester),
            final(self).id == old(self).id,
            final(self).content_migration_url == old(self).content_migration_url,
            final(self).description == old(self).description,
            final(self).workflow_state == old(self).workflow_state,
            final(self).fix_issue_html_url == old(self).fix_issue_html_url,
            final(self).issue_type == old(self).issue_type,
            final(self).error_report_html_url == old(self).error_report_html_url,
            final(self).error_message == old(self).error_message,
            final(self).created_at == old(self).created_at,
            final(self).updated_at == old(self).updated_at,
    {
        self.requester = Some(requester);
    }

    fn req(&self) -> (r: &Arc<Requester>)
        requires
            self.requester is Some,
        ensures
            *r == self.requester.unwrap(),
    {
        self.requester.as_ref().unwrap()
    }
}

/// Metadata about an available content migration type.
#[derive(Debug)]
pub struct Migrator {
    pub migration_type: Option<String>,
    pub requires_file_upload: Option<bool>,
    pub name: Option<String>,
    pub links: Option<JsonValue>,
}

impl ContentMigration {
    /// The kind of object the migration belongs to: `course`, `group`, `account`
    /// or `user`, whichever id is set first in that order.
    pub open spec fn parent_type_view(&self) -> Seq<char> {
        if self.course_id is Some {
            "course"@
        } else if self.group_id is Some {
            "group"@
        } else if self.account_id is Some {
            "account"@
        } else {
            "user"@
        }
    }

    fn parent_type_text(&self) -> (s: String)
        ensures
            s@ == self.parent_type_view(),
    {
        if self.course_id.is_some() {
            "course".to_owned()
        } else if self.group_id.is_some() {
            "group".to_owned()
        } else if self.account_id.is_some() {
            "account".to_owned()
        } else {
            "user".to_owned()
        }
    }

    /// Whether the migration knows the object it belongs to.
    pub open spec fn has_parent(&self) -> bool {
        self.course_id is Some || self.group_id is Some || self.account_id is Some || self.user_id is Some
    }

    /// The id of the object the migration belongs to (the first of the course,
    /// group, account and user ids that is set).
    pub open spec fn parent_id_view(&self) -> u64 {
        match self.course_id {
            Some(v) => v,
            None => match self.group_id {
                Some(v) => v,
                None => match self.account_id {
                    Some(v) => v,
                    None => self.user_id.unwrap(),
                },
            },
        }
    }

    fn parent_id(&self) -> (r: u64)
        requires
            self.has_parent(),
        ensures
            r == self.parent_id_view(),
    {
        match self.course_id {
            Some(v) => v,
            None => match self.group_id {
                Some(v) => v,
                None => match self.account_id {
                    Some(v) => v,
                    None => self.user_id.unwrap(),
                },
            },
        }
    }
}

/// The endpoint of a migration issue: `<content_migration_url>/migration_issues/<id>`
/// with its leading `/` removed, then a leading `api/v1/`.
pub open spec fn issue_endpoint(migration_url: Seq<char>, id: u64) -> Seq<char> {
    let t = trim_char_start(migration_url + "/migration_issues/"@ + dec(id as nat), '/');
    let p = "api/v1/"@;
    if p.len() <= t.len() && t.subrange(0, p.len() as int) == p {
        t.subrange(p.len() as int, t.len() as int)
    } else {
        t
    }
}

impl MigrationIssue {
    /// Update the workflow state of this migration issue. The issue's
    /// `content_migration_url` names the migration; it is read relative to the
    /// API root.
    ///
    /// # Canvas API
    /// `PUT /api/v1/.../content_migrations/:migration_id/migration_issues/:id`
    pub fn update(&self, workflow_state: &str) -> (r: Result<Request>)
        requires
            self.requester is Some,
            self.content_migration_url is Some,
        ensures
            self.requester.unwrap().sends_scoped(
                r,
                Method::Put,
                issue_endpoint(self.content_migration_url.unwrap()@, self.id),
                PayloadView::Form(seq![("workflow_state"@, workflow_state@)]),
                Scope::none(),
            ),
    {
        let mut raw = self.content_migration_url.as_ref().unwrap().clone();
        raw.append("/migration_issues/");
        push_u64(&mut raw, self.id);
        let v = chars_of(raw.as_str());
        let n = v.len();
        let mut a: usize = 0;
        assert(v@.subrange(0, n as int) =~= v@);
        while a < n && v[a] == '/'
            invariant
                a <= n == v@.len(),
                trim_char_start(v@, '/') == trim_char_start(v@.subrange(a as int, n as int), '/'),
            decreases n - a,
        {
            let ghost t = v@.subrange(a as int, n as int);
            assert(t.subrange(1, t.len() as int) =~= v@.subrange(a + 1, n as int));
            a = a + 1;
        }
        assert(v@.subrange(0, n as int) =~= v@);
        let prefix = chars_of("api/v1/");
        let ghost t = v@.subrange(a as int, n as int);
        let start = if occurs_at(&v, n, a, &prefix) {
            assert(t.subrange(0, prefix@.len() as int) =~= v@.subrange(a as int, a + prefix@.len()));
            assert(t.subrange(prefix@.len() as int, t.len() as int) =~= v@.subrange(a + prefix@.len(), n as int));
            a + prefix.len()
        } else {
            assert(prefix@.len() <= t.len() ==> t.subrange(0, prefix@.len() as int) =~= v@.subrange(
                a as int,
                a + prefix@.len(),
            ));
            a
        };
        let endpoint = string_of(&v, start, n);
        let form: Vec<(String, String)> = vec![("workflow_state".to_owned(), workflow_state.to_owned())];
        assert(pairs_view(form@) =~= seq![("workflow_state"@, workflow_state@)]);
        scoped(self.req().put(endpoint.as_str(), form), Scope::empty())
    }
}

} // verus!
