use vstd::prelude::*;
use std::sync::Arc;
use crate::error::Result;
use crate::http::{scoped, share, Method, PayloadView, Request, Requester, Scope};
use crate::json::{flag, flag_spec, get, JsonValue};
use crate::pagination::{lists, PageStream};
use crate::params::pairs_view;
use crate::text::{dec, push_u64};

verus! {

/// A blueprint template for a Canvas master course.
#[derive(Debug)]
pub struct BlueprintTemplate {
    pub id: u64,
    pub course_id: Option<u64>,
    /// A time, as RFC 3339 text.
    pub last_export_completed_at: Option<String>,
    pub associated_course_count: Option<u64>,
    pub latest_migration: Option<JsonValue>,
    pub requester: Option<Arc<Requester>>,
}

impl BlueprintTemplate {
    /// Takes in this BlueprintTemplate as fetched: it keeps `requester` for its own calls.
    pub fn adopt(&mut self, requester: Arc<Requester>, scope: &Scope)
        ensures
            final(self).requester == Some(requester),
            final(self).id == old(self).id,
            final(self).course_id == old(self).course_id,
            final(self).last_export_completed_at == old(self).last_export_completed_at,
            final(self).associated_course_count == old(self).associated_course_count,
            final(self).latest_migration == old(self).latest_migration,
    {
        self.requester = Some(requester);
    }

    fn req(&self) -> (r: &Arc<Requester>)
        requires
            self.requester is Some,
        ensures
            *r == self.requester.unwrap(),
    {
        self.requester.as_ref().unwrap()
    }

    /// Start a migration to push content to all associated courses.
    ///
    /// # Canvas API
    /// `POST /api/v1/courses/:course_id/blueprint_templates/:template_id/migrations`
    pub fn start_migration(&self) -> (r: Result<Request>)
        requires
            self.requester is Some,
            self.course_id is Some,
        ensures
            self.requester.unwrap().sends_scoped(
                r,
                Method::Post,
                "courses/"@ + dec(self.course_id.unwrap() as nat) + "/blueprint_templates/"@ + dec(self.id as nat) + "/migrations"@,
                PayloadView::Form(seq![]),
                Scope::none(),
            ),
    {
        let mut endpoint = String::new();
        endpoint.append("courses/");
        push_u64(&mut endpoint, self.course_id.unwrap());
        endpoint.append("/blueprint_templates/");
        push_u64(&mut endpoint, self.id);
        endpoint.append("/migrations");
        assert(endpoint@ =~= "courses/"@ + dec(self.course_id.unwrap() as nat) + "/blueprint_templates/"@ + dec(self.id as nat) + "/migrations"@);
        let form: Vec<(String, String)> = Vec::new();
        assert(pairs_view(form@) =~= seq![]);
        scoped(self.req().post(endpoint.as_str(), form), Scope::empty())
    }

    /// Stream migrations for this blueprint template.
    ///
    /// # Canvas API
    /// `GET /api/v1/courses/:course_id/blueprint_templates/:template_id/migrations`
    pub fn get_migrations(&self) -> (s: PageStream<BlueprintMigration>)
        requires
            self.requester is Some,
            self.course_id is Some,
        ensures
            lists(s, *self.requester.unwrap(), self.requester.unwrap().base(), "courses/"@ + dec(self.course_id.unwrap() as nat) + "/blueprint_templates/"@ + dec(self.id as nat) + "/migrations"@, seq![], Scope::none()),
    {
        let mut endpoint = String::new();
        endpoint.append("courses/");
        push_u64(&mut endpoint, self.course_id.unwrap());
        endpoint.append("/blueprint_templates/");
        push_u64(&mut endpoint, self.id);
        endpoint.append("/migrations");
        assert(endpoint@ =~= "courses/"@ + dec(self.course_id.unwrap() as nat) + "/blueprint_templates/"@ + dec(self.id as nat) + "/migrations"@);
        let form: Vec<(String, String)> = Vec::new();
        assert(pairs_view(form@) =~= seq![]);
        PageStream::new(share(self.req()), endpoint.as_str(), form).with_scope(Scope::empty())
    }

    /// Fetch a single migration by ID.
    ///
    /// # Canvas API
    /// `GET /api/v1/courses/:course_id/blueprint_templates/:template_id/migrations/:id`
    pub fn get_migration(&self, migration_id: u64) -> (r: Result<Request>)
        requires
            self.requester is Some,
            self.course_id is Some,
        ensures
            self.requester.unwrap().sends_scoped(
                r,
                Method::Get,
                "courses/"@ + dec(self.course_id.unwrap() as nat) + "/blueprint_templates/"@ + dec(self.id as nat) + "/migrations/"@ + dec(migration_id as nat),
                PayloadView::Query(seq![]),
                Scope::none(),
            ),
    {
        let mut endpoint = String::new();
        endpoint.append("courses/");
        push_u64(&mut endpoint, self.course_id.unwrap());
        endpoint.append("/blueprint_templates/");
        push_u64(&mut endpoint, self.id);
        endpoint.append("/migrations/");
        push_u64(&mut endpoint, migration_id);
        assert(endpoint@ =~= "courses/"@ + dec(self.course_id.unwrap() as nat) + "/blueprint_templates/"@ + dec(self.id as nat) + "/migrations/"@ + dec(migration_id as nat));
        let form: Vec<(String, String)> = Vec::new();
        assert(pairs_view(form@) =~= seq![]);
        scoped(self.req().get(endpoint.as_str(), form), Scope::empty())
    }

    /// Stream unsynced changes for this blueprint template.
    ///
    /// # Canvas API
    /// `GET /api/v1/courses/:course_id/blueprint_templates/:template_id/unsynced_changes`
    pub fn get_unsynced_changes(&self) -> (s: PageStream<ChangeRecord>)
        requires
            self.requester is Some,
            self.course_id is Some,
        ensures
            lists(s, *self.requester.unwrap(), self.requester.unwrap().base(), "courses/"@ + dec(self.course_id.unwrap() as nat) + "/blueprint_templates/"@ + dec(self.id as nat) + "/unsynced_changes"@, seq![], Scope::none()),
    {
        let mut endpoint = String::new();
        endpoint.append("courses/");
        push_u64(&mut endpoint, self.course_id.unwrap());
        endpoint.append("/blueprint_templates/");
        push_u64(&mut endpoint, self.id);
        endpoint.append("/unsynced_changes");
        assert(endpoint@ =~= "courses/"@ + dec(self.course_id.unwrap() as nat) + "/blueprint_templates/"@ + dec(self.id as nat) + "/unsynced_changes"@);
        let form: Vec<(String, String)> = Vec::new();
        assert(pairs_view(form@) =~= seq![]);
        PageStream::new(share(self.req()), endpoint.as_str(), form).with_scope(Scope::empty())
    }

    /// Stream associated courses for this blueprint template.
    ///
    /// # Canvas API
    /// `GET /api/v1/courses/:course_id/blueprint_templates/:template_id/associated_courses`
    pub fn get_associated_courses(&self) -> (s: PageStream<JsonValue>)
        requires
            self.requester is Some,
            self.course_id is Some,
        ensures
            lists(s, *self.requester.unwrap(), self.requester.unwrap().base(), "courses/"@ + dec(self.course_id.unwrap() as nat) + "/blueprint_templates/"@ + dec(self.id as nat) + "/associated_courses"@, seq![], Scope::none()),
    {
        let mut endpoint = String::new();
        endpoint.append("courses/");
        push_u64(&mut endpoint, self.course_id.unwrap());
        endpoint.append("/blueprint_templates/");
        push_u64(&mut endpoint, self.id);
        endpoint.append("/associated_courses");
        assert(endpoint@ =~= "courses/"@ + dec(self.course_id.unwrap() as nat) + "/blueprint_templates/"@ + dec(self.id as nat) + "/associated_courses"@);
        let form: Vec<(String, String)> = Vec::new();
        assert(pairs_view(form@) =~= seq![]);
        PageStream::new(share(self.req()), endpoint.as_str(), form).with_scope(Scope::empty())
    }

    /// Add or remove associated courses for this blueprint template.
    ///
    /// Pass `course_ids_to_add` and/or `course_ids_to_remove` as flat params.
    ///
    /// What Canvas answers is read with [`Self::succeeded`].
    ///
    /// # Canvas API
    /// `PUT /api/v1/courses/:course_id/blueprint_templates/:template_id/update_associations`
    pub fn update_associated_courses(&self, params: Vec<(String, String)>) -> (r: Result<Request>)
        requires
            self.requester is Some,
            self.course_id is Some,
        ensures
            self.requester.unwrap().sends_scoped(
                r,
                Method::Put,
                "courses/"@ + dec(self.course_id.unwrap() as nat) + "/blueprint_templates/"@ + dec(self.id as nat) + "/update_associations"@,
                PayloadView::Form(pairs_view(params@)),
                Scope::none(),
            ),
    {
        let mut endpoint = String::new();
        endpoint.append("courses/");
        push_u64(&mut endpoint, self.course_id.unwrap());
        endpoint.append("/blueprint_templates/");
        push_u64(&mut endpoint, self.id);
        endpoint.append("/update_associations");
        assert(endpoint@ =~= "courses/"@ + dec(self.course_id.unwrap() as nat) + "/blueprint_templates/"@ + dec(self.id as nat) + "/update_associations"@);
        let form: Vec<(String, String)> = params;
        assert(pairs_view(form@) =~= pairs_view(params@));
        scoped(self.req().put(endpoint.as_str(), form), Scope::empty())
    }
}

/// A migration that pushes blueprint content to associated courses.
#[derive(Debug)]
pub struct BlueprintMigration {
    pub id: u64,
    pub template_id: Option<u64>,
    pub course_id: Option<u64>,
    pub subscription_id: Option<u64>,
    pub user_id: Option<u64>,
    pub workflow_state: Option<String>,
    /// A time, as RFC 3339 text.
    pub created_at: Option<String>,
    /// A time, as RFC 3339 text.
    pub exports_started_at: Option<String>,
    /// A time, as RFC 3339 text.
    pub imports_queued_at: Option<String>,
    /// A time, as RFC 3339 text.
    pub imports_completed_at: Option<String>,
    pub comment: Option<String>,
    pub requester: Option<Arc<Requester>>,
}

impl BlueprintMigration {
    /// Takes in this BlueprintMigration as fetched: it keeps `requester` for its own calls.
    pub fn adopt(&mut self, requester: Arc<Requester>, scope: &Scope)
        ensures
            final(self).requester == Some(requester),
            final(self).id == old(self).id,
            final(self).template_id == old(self).template_id,
            final(self).course_id == old(self).course_id,
            final(self).subscription_id == old(self).subscription_id,
            final(self).user_id == old(self).user_id,
            final(self).workflow_state == old(self).workflow_state,
            final(self).created_at == old(self).created_at,
            final(self).exports_started_at == old(self).exports_started_at,
            final(self).imports_queued_at == old(self).imports_queued_at,
            final(self).imports_completed_at == old(self).imports_completed_at,
            final(self).comment == old(self).comment,
    {
        self.requester = Some(requester);
    }

    fn req(&self) -> (r: &Arc<Requester>)
        requires
            self.requester is Some,
        ensures
            *r == self.requester.unwrap(),
    {
        self.requester.as_ref().unwrap()
    }

    /// Stream the change details for this migration.
    ///
    /// # Canvas API
    /// `GET /api/v1/courses/:course_id/blueprint_templates/:template_id/migrations/:id/details`
    pub fn get_details(&self) -> (s: PageStream<ChangeRecord>)
        requires
            self.requester is Some,
            self.course_id is Some,
            self.template_id is Some,
        ensures
            lists(s, *self.requester.unwrap(), self.requester.unwrap().base(), "courses/"@ + dec(self.course_id.unwrap() as nat) + "/blueprint_templates/"@ + dec(self.template_id.unwrap() as nat) + "/migrations/"@ + dec(self.id as nat) + "/details"@, seq![], Scope::none()),
    {
        let mut endpoint = String::new();
        endpoint.append("courses/");
        push_u64(&mut endpoint, self.course_id.unwrap());
        endpoint.append("/blueprint_templates/");
        push_u64(&mut endpoint, self.template_id.unwrap());
        endpoint.append("/migrations/");
        push_u64(&mut endpoint, self.id);
        endpoint.append("/details");
        assert(endpoint@ =~= "courses/"@ + dec(self.course_id.unwrap() as nat) + "/blueprint_templates/"@ + dec(self.template_id.unwrap() as nat) + "/migrations/"@ + dec(self.id as nat) + "/details"@);
        let form: Vec<(String, String)> = Vec::new();
        assert(pairs_view(form@) =~= seq![]);
        PageStream::new(share(self.req()), endpoint.as_str(), form).with_scope(Scope::empty())
    }

    /// Stream import details for a migration on an associated (child) course.
    ///
    /// # Canvas API
    /// `GET /api/v1/courses/:course_id/blueprint_subscriptions/:subscription_id/migrations/:id/details`
    pub fn get_import_details(&self) -> (s: PageStream<ChangeRecord>)
        requires
            self.requester is Some,
            self.subscription_id is Some,
            self.course_id is Some,
        ensures
            lists(s, *self.requester.unwrap(), self.requester.unwrap().base(), "courses/"@ + dec(self.course_id.unwrap() as nat) + "/blueprint_subscriptions/"@ + dec(self.subscription_id.unwrap() as nat) + "/migrations/"@ + dec(self.id as nat) + "/details"@, seq![], Scope::none()),
    {
        let mut endpoint = String::new();
        endpoint.append("courses/");
        push_u64(&mut endpoint, self.course_id.unwrap());
        endpoint.append("/blueprint_subscriptions/");
        push_u64(&mut endpoint, self.subscription_id.unwrap());
        endpoint.append("/migrations/");
        push_u64(&mut endpoint, self.id);
        endpoint.append("/details");
        assert(endpoint@ =~= "courses/"@ + dec(self.course_id.unwrap() as nat) + "/blueprint_subscriptions/"@ + dec(self.subscription_id.unwrap() as nat) + "/migrations/"@ + dec(self.id as nat) + "/details"@);
        let form: Vec<(String, String)> = Vec::new();
        assert(pairs_view(form@) =~= seq![]);
        PageStream::new(share(self.req()), endpoint.as_str(), form).with_scope(Scope::empty())
    }
}

/// A record of a single content item change in a blueprint migration.
#[derive(Debug)]
pub struct ChangeRecord {
    pub asset_id: Option<u64>,
    pub asset_type: Option<String>,
    pub asset_name: Option<String>,
    pub change_type: Option<String>,
    pub html_url: Option<String>,
    pub locked: Option<bool>,
    pub exceptions: Option<Vec<JsonValue>>,
}

/// A blueprint subscription on a child (associated) course.
#[derive(Debug)]
pub struct BlueprintSubscription {
    pub id: u64,
    pub template_id: Option<u64>,
    pub blueprint_course: Option<JsonValue>,
    pub course_id: Option<u64>,
    pub requester: Option<Arc<Requester>>,
}

impl BlueprintSubscription {
    /// Takes in this BlueprintSubscription as fetched: it keeps `requester` for its own calls.
    pub fn adopt(&mut self, requester: Arc<Requester>, scope: &Scope)
        ensures
            final(self).requester == Some(requester),
            final(self).id == old(self).id,
            final(self).template_id == old(self).template_id,
            final(self).blueprint_course == old(self).blueprint_course,
            final(self).course_id == old(self).course_id,
    {
        self.requester = Some(requester);
    }

    fn req(&self) -> (r: &Arc<Requester>)
        requires
            self.requester is Some,
        ensures
            *r == self.requester.unwrap(),
    {
        self.requester.as_ref().unwrap()
    }

    /// Stream imports for this subscription.
    ///
    /// # Canvas API
    /// `GET /api/v1/courses/:course_id/blueprint_subscriptions/:id/migrations`
    pub fn get_imports(&self) -> (s: PageStream<BlueprintMigration>)
        requires
            self.requester is Some,
            self.course_id is Some,
        ensures
            lists(s, *self.requester.unwrap(), self.requester.unwrap().base(), "courses/"@ + dec(self.course_id.unwrap() as nat) + "/blueprint_subscriptions/"@ + dec(self.id as nat) + "/migrations"@, seq![], Scope::none()),
    {
        let mut endpoint = String::new();
        endpoint.append("courses/");
        push_u64(&mut endpoint, self.course_id.unwrap());
        endpoint.append("/blueprint_subscriptions/");
        push_u64(&mut endpoint, self.id);
        endpoint.append("/migrations");
        assert(endpoint@ =~= "courses/"@ + dec(self.course_id.unwrap() as nat) + "/blueprint_subscriptions/"@ + dec(self.id as nat) + "/migrations"@);
        let form: Vec<(String, String)> = Vec::new();
        assert(pairs_view(form@) =~= seq![]);
        PageStream::new(share(self.req()), endpoint.as_str(), form).with_scope(Scope::empty())
    }

    /// Fetch a single import by migration ID.
    ///
    /// # Canvas API
    /// `GET /api/v1/courses/:course_id/blueprint_subscriptions/:id/migrations/:migration_id`
    pub fn get_import(&self, migration_id: u64) -> (r: Result<Request>)
        requires
            self.requester is Some,
            self.course_id is Some,
        ensures
            self.requester.unwrap().sends_scoped(
                r,
                Method::Get,
                "courses/"@ + dec(self.course_id.unwrap() as nat) + "/blueprint_subscriptions/"@ + dec(self.id as nat) + "/migrations/"@ + dec(migration_id as nat),
                PayloadView::Query(seq![]),
                Scope::none(),
            ),
    {
        let mut endpoint = String::new();
        endpoint.append("courses/");
        push_u64(&mut endpoint, self.course_id.unwrap());
        endpoint.append("/blueprint_subscriptions/");
        push_u64(&mut endpoint, self.id);
        endpoint.append("/migrations/");
        push_u64(&mut endpoint, migration_id);
        assert(endpoint@ =~= "courses/"@ + dec(self.course_id.unwrap() as nat) + "/blueprint_subscriptions/"@ + dec(self.id as nat) + "/migrations/"@ + dec(migration_id as nat));
        let form: Vec<(String, String)> = Vec::new();
        assert(pairs_view(form@) =~= seq![]);
        scoped(self.req().get(endpoint.as_str(), form), Scope::empty())
    }
}

impl BlueprintTemplate {
    /// Whether Canvas's answer to [`Self::update_associated_courses`] reports
    /// success: its `success` member, `false` when it is missing or not a boolean.
    pub fn succeeded(response: &JsonValue) -> (b: bool)
        ensures
            b == flag_spec(*response, "success"@),
    {
        flag(response, "success")
    }
}

} // verus!
