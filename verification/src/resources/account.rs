use vstd::prelude::*;
use std::sync::Arc;
use crate::error::Result;
use crate::http::{scoped, share, Method, PayloadView, Request, Requester, Scope};
use crate::json::{flag, flag_spec, get, JsonValue};
use crate::pagination::{lists, PageStream};
use crate::params::{
    add_json_at, add_text, add_text_at, add_u64, canvas_params, concat_upto, entry, field,
    lemma_part_in_concat, member_key, pairs_view, prepend_pair, text_of, u64_of, wrap_params,
};
use crate::text::{dec, push_u64, u64_to_text};
use crate::resources::account_calendar::AccountCalendar;
use crate::resources::content_export::ContentExport;
use crate::resources::content_export::ContentExportParams;
use crate::resources::content_migration::ContentMigration;
use crate::resources::course::Course;
use crate::resources::enrollment_term::EnrollmentTerm;
use crate::resources::enrollment_term::EnrollmentTermParams;
use crate::resources::external_tool::ExternalTool;
use crate::resources::external_tool::ExternalToolParams;
use crate::resources::feature::Feature;
use crate::resources::grading_standard::GradingStandard;
use crate::resources::grading_standard::GradingStandardParams;
use crate::resources::group::Group;
use crate::resources::group::GroupCategory;
use crate::resources::group::GroupCategoryParams;
use crate::resources::content_migration::Migrator;
use crate::resources::outcome::OutcomeLink;
use crate::resources::outcome::UpdateOutcomeGroupParams;

verus! {

/// Parameters for updating an account.
#[derive(Debug, Default)]
pub struct UpdateAccountParams {
    pub name: Option<String>,
    pub default_time_zone: Option<String>,
    pub default_storage_quota_mb: Option<u64>,
}

impl UpdateAccountParams {
    /// The parameters these settings give under `key`: `key[member]` for each
    /// member that is set, in the order of the member names.
    pub open spec fn form_view(self, key: Seq<char>) -> Seq<(Seq<char>, Seq<char>)> {
        field(key, "default_storage_quota_mb"@, u64_of(self.default_storage_quota_mb))
        + field(key, "default_time_zone"@, text_of(self.default_time_zone))
        + field(key, "name"@, text_of(self.name))
    }

    /// The parameters these settings give under `key` (what flattening
    /// `{key: settings}` gives).
    pub fn to_form(&self, key: &str) -> (r: Vec<(String, String)>)
        ensures
            pairs_view(r@) == self.form_view(key@),
    {
        let mut out: Vec<(String, String)> = Vec::new();
        add_u64(&mut out, key, "default_storage_quota_mb", self.default_storage_quota_mb);
        add_text(&mut out, key, "default_time_zone", &self.default_time_zone);
        add_text(&mut out, key, "name", &self.name);
        assert(pairs_view(out@) =~= self.form_view(key@));
        out
    }

    /// Every member of these settings that is set is sent under `key[member]`,
    /// with its text (a boolean as `true`/`false`, a number in decimal).
    pub proof fn lemma_form_sends_members(self, key: Seq<char>)
        ensures
            self.default_storage_quota_mb is Some ==> self.form_view(key).contains((member_key(key, "default_storage_quota_mb"@), dec(self.default_storage_quota_mb.unwrap() as nat))),
            self.default_time_zone is Some ==> self.form_view(key).contains((member_key(key, "default_time_zone"@), self.default_time_zone.unwrap()@)),
            self.name is Some ==> self.form_view(key).contains((member_key(key, "name"@), self.name.unwrap()@)),
    {
        let parts = seq![
            field(key, "default_storage_quota_mb"@, u64_of(self.default_storage_quota_mb)),
            field(key, "default_time_zone"@, text_of(self.default_time_zone)),
            field(key, "name"@, text_of(self.name)),
        ];
        assert(self.form_view(key) == concat_upto(parts, 3)) by {
            assert(concat_upto(parts, 0) == Seq::<(Seq<char>, Seq<char>)>::empty());
            assert(concat_upto(parts, 1) =~= parts[0]);
            assert(concat_upto(parts, 2) == concat_upto(parts, 1) + parts[1]);
            assert(concat_upto(parts, 3) == concat_upto(parts, 2) + parts[2]);
        }
        assert(self.default_storage_quota_mb is Some ==> self.form_view(key).contains((member_key(key, "default_storage_quota_mb"@), dec(self.default_storage_quota_mb.unwrap() as nat)))) by {
            if self.default_storage_quota_mb is Some {
                assert(parts[0][0] == (member_key(key, "default_storage_quota_mb"@), dec(self.default_storage_quota_mb.unwrap() as nat)));
                lemma_part_in_concat(parts, 3, 0, (member_key(key, "default_storage_quota_mb"@), dec(self.default_storage_quota_mb.unwrap() as nat)));
            }
        }
        assert(self.default_time_zone is Some ==> self.form_view(key).contains((member_key(key, "default_time_zone"@), self.default_time_zone.unwrap()@))) by {
            if self.default_time_zone is Some {
                assert(parts[1][0] == (member_key(key, "default_time_zone"@), self.default_time_zone.unwrap()@));
                lemma_part_in_concat(parts, 3, 1, (member_key(key, "default_time_zone"@), self.default_time_zone.unwrap()@));
            }
        }
        assert(self.name is Some ==> self.form_view(key).contains((member_key(key, "name"@), self.name.unwrap()@))) by {
            if self.name is Some {
                assert(parts[2][0] == (member_key(key, "name"@), self.name.unwrap()@));
                lemma_part_in_concat(parts, 3, 2, (member_key(key, "name"@), self.name.unwrap()@));
            }
        }
    }
}

/// A Canvas account (institution, sub-account, or department).
#[derive(Debug)]
pub struct Account {
    pub id: u64,
    pub name: Option<String>,
    pub uuid: Option<String>,
    pub parent_account_id: Option<u64>,
    pub root_account_id: Option<u64>,
    pub workflow_state: Option<String>,
    pub default_storage_quota_mb: Option<u64>,
    pub default_user_storage_quota_mb: Option<u64>,
    pub default_group_storage_quota_mb: Option<u64>,
    pub default_time_zone: Option<String>,
    pub sis_account_id: Option<String>,
    pub integration_id: Option<String>,
    pub lti_guid: Option<String>,
    pub requester: Option<Arc<Requester>>,
}

impl Account {
    /// Takes in this Account as fetched: it keeps `requester` for its own calls.
    pub fn adopt(&mut self, requester: Arc<Requester>, scope: &Scope)
        ensures
            final(self).requester == Some(requester),
            final(self).id == old(self).id,
            final(self).name == old(self).name,
            final(self).uuid == old(self).uuid,
            final(self).parent_account_id == old(self).parent_account_id,
            final(self).root_account_id == old(self).root_account_id,
            final(self).workflow_state == old(self).workflow_state,
            final(self).default_storage_quota_mb == old(self).default_storage_quota_mb,
            final(self).default_user_storage_quota_mb == old(self).default_user_storage_quota_mb,
            final(self).default_group_storage_quota_mb == old(self).default_group_storage_quota_mb,
            final(self).default_time_zone == old(self).default_time_zone,
            final(self).sis_account_id == old(self).sis_account_id,
            final(self).integration_id == old(self).integration_id,
            final(self).lti_guid == old(self).lti_guid,
    {
        self.requester = Some(requester);
    }

    fn req(&self) -> (r: &Arc<Requester>)
        requires
            self.requester is Some,
        ensures
            *r == self.requester.unwrap(),
    {
        self.requester.as_ref().unwrap()
    }

    /// Fetch this account's calendar.
    ///
    /// # Canvas API
    /// `GET /api/v1/account_calendars/:account_id`
    pub fn get_account_calendar(&self) -> (r: Result<Request>)
        requires
            self.requester is Some,
        ensures
            self.requester.unwrap().sends_scoped(
                r,
                Method::Get,
                "account_calendars/"@ + dec(self.id as nat),
                PayloadView::Query(seq![]),
                Scope::none(),
            ),
    {
        let mut endpoint = String::new();
        endpoint.append("account_calendars/");
        push_u64(&mut endpoint, self.id);
        assert(endpoint@ =~= "account_calendars/"@ + dec(self.id as nat));
        let form: Vec<(String, String)> = Vec::new();
        assert(pairs_view(form@) =~= seq![]);
        scoped(self.req().get(endpoint.as_str(), form), Scope::empty())
    }

    /// Stream all account calendars visible under this account.
    ///
    /// # Canvas API
    /// `GET /api/v1/accounts/:account_id/account_calendars`
    pub fn get_all_account_calendars(&self) -> (s: PageStream<AccountCalendar>)
        requires
            self.requester is Some,
        ensures
            lists(s, *self.requester.unwrap(), self.requester.unwrap().base(), "accounts/"@ + dec(self.id as nat) + "/account_calendars"@, seq![], Scope::none()),
    {
        let mut endpoint = String::new();
        endpoint.append("accounts/");
        push_u64(&mut endpoint, self.id);
        endpoint.append("/account_calendars");
        assert(endpoint@ =~= "accounts/"@ + dec(self.id as nat) + "/account_calendars"@);
        let form: Vec<(String, String)> = Vec::new();
        assert(pairs_view(form@) =~= seq![]);
        PageStream::new(share(self.req()), endpoint.as_str(), form).with_scope(Scope::empty())
    }

    /// Fetch a single external tool by ID.
    ///
    /// # Canvas API
    /// `GET /api/v1/accounts/:account_id/external_tools/:id`
    pub fn get_external_tool(&self, tool_id: u64) -> (r: Result<Request>)
        requires
            self.requester is Some,
        ensures
            self.requester.unwrap().sends_scoped(
                r,
                Method::Get,
                "accounts/"@ + dec(self.id as nat) + "/external_tools/"@ + dec(tool_id as nat),
                PayloadView::Query(seq![]),
                Scope::none(),
            ),
    {
        let mut endpoint = String::new();
        endpoint.append("accounts/");
        push_u64(&mut endpoint, self.id);
        endpoint.append("/external_tools/");
        push_u64(&mut endpoint, tool_id);
        assert(endpoint@ =~= "accounts/"@ + dec(self.id as nat) + "/external_tools/"@ + dec(tool_id as nat));
        let form: Vec<(String, String)> = Vec::new();
        assert(pairs_view(form@) =~= seq![]);
        scoped(self.req().get(endpoint.as_str(), form), Scope::empty())
    }

    /// Stream all external tools for this account.
    ///
    /// # Canvas API
    /// `GET /api/v1/accounts/:account_id/external_tools`
    pub fn get_external_tools(&self) -> (s: PageStream<ExternalTool>)
        requires
            self.requester is Some,
        ensures
            lists(s, *self.requester.unwrap(), self.requester.unwrap().base(), "accounts/"@ + dec(self.id as nat) + "/external_tools"@, seq![], Scope::none()),
    {
        let mut endpoint = String::new();
        endpoint.append("accounts/");
        push_u64(&mut endpoint, self.id);
        endpoint.append("/external_tools");
        assert(endpoint@ =~= "accounts/"@ + dec(self.id as nat) + "/external_tools"@);
        let form: Vec<(String, String)> = Vec::new();
        assert(pairs_view(form@) =~= seq![]);
        PageStream::new(share(self.req()), endpoint.as_str(), form).with_scope(Scope::empty())
    }

    /// Create an external tool on this account.
    ///
    /// # Canvas API
    /// `POST /api/v1/accounts/:account_id/external_tools`
    pub fn create_external_tool(&self, params: ExternalToolParams) -> (r: Result<Request>)
        requires
            self.requester is Some,
        ensures
            self.requester.unwrap().sends_scoped(
                r,
                Method::Post,
                "accounts/"@ + dec(self.id as nat) + "/external_tools"@,
                PayloadView::Form(params.form_view("external_tool"@)),
                Scope::none(),
            ),
    {
        let mut endpoint = String::new();
        endpoint.append("accounts/");
        push_u64(&mut endpoint, self.id);
        endpoint.append("/external_tools");
        assert(endpoint@ =~= "accounts/"@ + dec(self.id as nat) + "/external_tools"@);
        let form: Vec<(String, String)> = params.to_form("external_tool");
        assert(pairs_view(form@) =~= params.form_view("external_tool"@));
        scoped(self.req().post(endpoint.as_str(), form), Scope::empty())
    }

    /// Fetch a single SIS import by ID.
    ///
    /// # Canvas API
    /// `GET /api/v1/accounts/:account_id/sis_imports/:id`
    pub fn get_sis_import(&self, import_id: u64) -> (r: Result<Request>)
        requires
            self.requester is Some,
        ensures
            self.requester.unwrap().sends_scoped(
                r,
                Method::Get,
                "accounts/"@ + dec(self.id as nat) + "/sis_imports/"@ + dec(import_id as nat),
                PayloadView::Query(seq![]),
                Scope::none(),
            ),
    {
        let mut endpoint = String::new();
        endpoint.append("accounts/");
        push_u64(&mut endpoint, self.id);
        endpoint.append("/sis_imports/");
        push_u64(&mut endpoint, import_id);
        assert(endpoint@ =~= "accounts/"@ + dec(self.id as nat) + "/sis_imports/"@ + dec(import_id as nat));
        let form: Vec<(String, String)> = Vec::new();
        assert(pairs_view(form@) =~= seq![]);
        scoped(self.req().get(endpoint.as_str(), form), Scope::empty())
    }

    /// Stream all SIS imports for this account.
    ///
    /// # Canvas API
    /// `GET /api/v1/accounts/:account_id/sis_imports`
    pub fn get_sis_imports(&self) -> (s: PageStream<JsonValue>)
        requires
            self.requester is Some,
        ensures
            lists(s, *self.requester.unwrap(), self.requester.unwrap().base(), "accounts/"@ + dec(self.id as nat) + "/sis_imports"@, seq![], Scope::none()),
    {
        let mut endpoint = String::new();
        endpoint.append("accounts/");
        push_u64(&mut endpoint, self.id);
        endpoint.append("/sis_imports");
        assert(endpoint@ =~= "accounts/"@ + dec(self.id as nat) + "/sis_imports"@);
        let form: Vec<(String, String)> = Vec::new();
        assert(pairs_view(form@) =~= seq![]);
        PageStream::new(share(self.req()), endpoint.as_str(), form).with_scope(Scope::empty())
    }

    /// Stream currently running SIS imports for this account.
    ///
    /// # Canvas API
    /// `GET /api/v1/accounts/:account_id/sis_imports/importing`
    pub fn get_sis_imports_running(&self) -> (s: PageStream<JsonValue>)
        requires
            self.requester is Some,
        ensures
            lists(s, *self.requester.unwrap(), self.requester.unwrap().base(), "accounts/"@ + dec(self.id as nat) + "/sis_imports/importing"@, seq![], Scope::none()),
    {
        let mut endpoint = String::new();
        endpoint.append("accounts/");
        push_u64(&mut endpoint, self.id);
        endpoint.append("/sis_imports/importing");
        assert(endpoint@ =~= "accounts/"@ + dec(self.id as nat) + "/sis_imports/importing"@);
        let form: Vec<(String, String)> = Vec::new();
        assert(pairs_view(form@) =~= seq![]);
        PageStream::new(share(self.req()), endpoint.as_str(), form).with_scope(Scope::empty())
    }

    /// Fetch a single rubric by ID.
    ///
    /// # Canvas API
    /// `GET /api/v1/accounts/:account_id/rubrics/:id`
    pub fn get_rubric(&self, rubric_id: u64) -> (r: Result<Request>)
        requires
            self.requester is Some,
        ensures
            self.requester.unwrap().sends_scoped(
                r,
                Method::Get,
                "accounts/"@ + dec(self.id as nat) + "/rubrics/"@ + dec(rubric_id as nat),
                PayloadView::Query(seq![]),
                Scope::none(),
            ),
    {
        let mut endpoint = String::new();
        endpoint.append("accounts/");
        push_u64(&mut endpoint, self.id);
        endpoint.append("/rubrics/");
        push_u64(&mut endpoint, rubric_id);
        assert(endpoint@ =~= "accounts/"@ + dec(self.id as nat) + "/rubrics/"@ + dec(rubric_id as nat));
        let form: Vec<(String, String)> = Vec::new();
        assert(pairs_view(form@) =~= seq![]);
        scoped(self.req().get(endpoint.as_str(), form), Scope::empty())
    }

    /// Stream all rubrics for this account.
    ///
    /// # Canvas API
    /// `GET /api/v1/accounts/:account_id/rubrics`
    pub fn get_rubrics(&self) -> (s: PageStream<JsonValue>)
        requires
            self.requester is Some,
        ensures
            lists(s, *self.requester.unwrap(), self.requester.unwrap().base(), "accounts/"@ + dec(self.id as nat) + "/rubrics"@, seq![], Scope::none()),
    {
        let mut endpoint = String::new();
        endpoint.append("accounts/");
        push_u64(&mut endpoint, self.id);
        endpoint.append("/rubrics");
        assert(endpoint@ =~= "accounts/"@ + dec(self.id as nat) + "/rubrics"@);
        let form: Vec<(String, String)> = Vec::new();
        assert(pairs_view(form@) =~= seq![]);
        PageStream::new(share(self.req()), endpoint.as_str(), form).with_scope(Scope::empty())
    }

    /// Create a rubric on this account.
    ///
    /// # Canvas API
    /// `POST /api/v1/accounts/:account_id/rubrics`
    pub fn create_rubric(&self, params: JsonValue) -> (r: Result<Request>)
        requires
            self.requester is Some,
        ensures
            self.requester.unwrap().sends_scoped(
                r,
                Method::Post,
                "accounts/"@ + dec(self.id as nat) + "/rubrics"@,
                PayloadView::Form(canvas_params("rubric"@, params)),
                Scope::none(),
            ),
    {
        let mut endpoint = String::new();
        endpoint.append("accounts/");
        push_u64(&mut endpoint, self.id);
        endpoint.append("/rubrics");
        assert(endpoint@ =~= "accounts/"@ + dec(self.id as nat) + "/rubrics"@);
        let form: Vec<(String, String)> = wrap_params("rubric", &params);
        assert(pairs_view(form@) =~= canvas_params("rubric"@, params));
        scoped(self.req().post(endpoint.as_str(), form), Scope::empty())
    }

    /// Fetch a single outcome group by ID.
    ///
    /// # Canvas API
    /// `GET /api/v1/accounts/:account_id/outcome_groups/:id`
    pub fn get_outcome_group(&self, group_id: u64) -> (r: Result<Request>)
        requires
            self.requester is Some,
        ensures
            self.requester.unwrap().sends_scoped(
                r,
                Method::Get,
                "accounts/"@ + dec(self.id as nat) + "/outcome_groups/"@ + dec(group_id as nat),
                PayloadView::Query(seq![]),
                Scope::none(),
            ),
    {
        let mut endpoint = String::new();
        endpoint.append("accounts/");
        push_u64(&mut endpoint, self.id);
        endpoint.append("/outcome_groups/");
        push_u64(&mut endpoint, group_id);
        assert(endpoint@ =~= "accounts/"@ + dec(self.id as nat) + "/outcome_groups/"@ + dec(group_id as nat));
        let form: Vec<(String, String)> = Vec::new();
        assert(pairs_view(form@) =~= seq![]);
        scoped(self.req().get(endpoint.as_str(), form), Scope::empty())
    }

    /// Stream all outcome group links for this account.
    ///
    /// # Canvas API
    /// `GET /api/v1/accounts/:account_id/outcome_group_links`
    pub fn get_outcome_group_links(&self) -> (s: PageStream<OutcomeLink>)
        requires
            self.requester is Some,
        ensures
            lists(s, *self.requester.unwrap(), self.requester.unwrap().base(), "accounts/"@ + dec(self.id as nat) + "/outcome_group_links"@, seq![], Scope::none()),
    {
        let mut endpoint = String::new();
        endpoint.append("accounts/");
        push_u64(&mut endpoint, self.id);
        endpoint.append("/outcome_group_links");
        assert(endpoint@ =~= "accounts/"@ + dec(self.id as nat) + "/outcome_group_links"@);
        let form: Vec<(String, String)> = Vec::new();
        assert(pairs_view(form@) =~= seq![]);
        PageStream::new(share(self.req()), endpoint.as_str(), form).with_scope(Scope::empty())
    }

    /// Create a top-level outcome group on this account.
    ///
    /// # Canvas API
    /// `POST /api/v1/accounts/:account_id/outcome_groups`
    pub fn create_outcome_group(&self, params: UpdateOutcomeGroupParams) -> (r: Result<Request>)
        requires
            self.requester is Some,
        ensures
            self.requester.unwrap().sends_scoped(
                r,
                Method::Post,
                "accounts/"@ + dec(self.id as nat) + "/outcome_groups"@,
                PayloadView::Form(params.form_view("outcome_group"@)),
                Scope::none(),
            ),
    {
        let mut endpoint = String::new();
        endpoint.append("accounts/");
        push_u64(&mut endpoint, self.id);
        endpoint.append("/outcome_groups");
        assert(endpoint@ =~= "accounts/"@ + dec(self.id as nat) + "/outcome_groups"@);
        let form: Vec<(String, String)> = params.to_form("outcome_group");
        assert(pairs_view(form@) =~= params.form_view("outcome_group"@));
        scoped(self.req().post(endpoint.as_str(), form), Scope::empty())
    }

    /// Fetch a single content migration by ID.
    ///
    /// # Canvas API
    /// `GET /api/v1/accounts/:account_id/content_migrations/:id`
    pub fn get_content_migration(&self, migration_id: u64) -> (r: Result<Request>)
        requires
            self.requester is Some,
        ensures
            self.requester.unwrap().sends_scoped(
                r,
                Method::Get,
                "accounts/"@ + dec(self.id as nat) + "/content_migrations/"@ + dec(migration_id as nat),
                PayloadView::Query(seq![]),
                Scope::none(),
            ),
    {
        let mut endpoint = String::new();
        endpoint.append("accounts/");
        push_u64(&mut endpoint, self.id);
        endpoint.append("/content_migrations/");
        push_u64(&mut endpoint, migration_id);
        assert(endpoint@ =~= "accounts/"@ + dec(self.id as nat) + "/content_migrations/"@ + dec(migration_id as nat));
        let form: Vec<(String, String)> = Vec::new();
        assert(pairs_view(form@) =~= seq![]);
        scoped(self.req().get(endpoint.as_str(), form), Scope::empty())
    }

    /// Stream all content migrations for this account.
    ///
    /// # Canvas API
    /// `GET /api/v1/accounts/:account_id/content_migrations`
    pub fn get_content_migrations(&self) -> (s: PageStream<ContentMigration>)
        requires
            self.requester is Some,
        ensures
            lists(s, *self.requester.unwrap(), self.requester.unwrap().base(), "accounts/"@ + dec(self.id as nat) + "/content_migrations"@, seq![], Scope::none()),
    {
        let mut endpoint = String::new();
        endpoint.append("accounts/");
        push_u64(&mut endpoint, self.id);
        endpoint.append("/content_migrations");
        assert(endpoint@ =~= "accounts/"@ + dec(self.id as nat) + "/content_migrations"@);
        let form: Vec<(String, String)> = Vec::new();
        assert(pairs_view(form@) =~= seq![]);
        PageStream::new(share(self.req()), endpoint.as_str(), form).with_scope(Scope::empty())
    }

    /// Stream available content migration types for this account.
    ///
    /// # Canvas API
    /// `GET /api/v1/accounts/:account_id/content_migrations/migrators`
    pub fn get_migrators(&self) -> (s: PageStream<Migrator>)
        requires
            self.requester is Some,
        ensures
            lists(s, *self.requester.unwrap(), self.requester.unwrap().base(), "accounts/"@ + dec(self.id as nat) + "/content_migrations/migrators"@, seq![], Scope::none()),
    {
        let mut endpoint = String::new();
        endpoint.append("accounts/");
        push_u64(&mut endpoint, self.id);
        endpoint.append("/content_migrations/migrators");
        assert(endpoint@ =~= "accounts/"@ + dec(self.id as nat) + "/content_migrations/migrators"@);
        let form: Vec<(String, String)> = Vec::new();
        assert(pairs_view(form@) =~= seq![]);
        PageStream::new(share(self.req()), endpoint.as_str(), form).with_scope(Scope::empty())
    }

    /// Fetch a single enrollment term by ID.
    ///
    /// # Canvas API
    /// `GET /api/v1/accounts/:account_id/terms/:id`
    pub fn get_enrollment_term(&self, term_id: u64) -> (r: Result<Request>)
        requires
            self.requester is Some,
        ensures
            self.requester.unwrap().sends_scoped(
                r,
                Method::Get,
                "accounts/"@ + dec(self.id as nat) + "/terms/"@ + dec(term_id as nat),
                PayloadView::Query(seq![]),
                Scope { account_id: Some(Some(self.id)), ..Scope::none() },
            ),
    {
        let mut endpoint = String::new();
        endpoint.append("accounts/");
        push_u64(&mut endpoint, self.id);
        endpoint.append("/terms/");
        push_u64(&mut endpoint, term_id);
        assert(endpoint@ =~= "accounts/"@ + dec(self.id as nat) + "/terms/"@ + dec(term_id as nat));
        let form: Vec<(String, String)> = Vec::new();
        assert(pairs_view(form@) =~= seq![]);
        scoped(self.req().get(endpoint.as_str(), form), Scope { account_id: Some(Some(self.id)), ..Scope::empty() })
    }

    /// Stream all enrollment terms for this account.
    ///
    /// # Canvas API
    /// `GET /api/v1/accounts/:account_id/terms`
    pub fn get_enrollment_terms(&self) -> (s: PageStream<EnrollmentTerm>)
        requires
            self.requester is Some,
        ensures
            lists(s, *self.requester.unwrap(), self.requester.unwrap().base(), "accounts/"@ + dec(self.id as nat) + "/terms"@, seq![], Scope { account_id: Some(Some(self.id)), ..Scope::none() }),
    {
        let mut endpoint = String::new();
        endpoint.append("accounts/");
        push_u64(&mut endpoint, self.id);
        endpoint.append("/terms");
        assert(endpoint@ =~= "accounts/"@ + dec(self.id as nat) + "/terms"@);
        let form: Vec<(String, String)> = Vec::new();
        assert(pairs_view(form@) =~= seq![]);
        PageStream::new(share(self.req()), endpoint.as_str(), form).with_scope(Scope { account_id: Some(Some(self.id)), ..Scope::empty() })
    }

    /// Create an enrollment term on this account.
    ///
    /// # Canvas API
    /// `POST /api/v1/accounts/:account_id/terms`
    pub fn create_enrollment_term(&self, params: EnrollmentTermParams) -> (r: Result<Request>)
        requires
            self.requester is Some,
        ensures
            self.requester.unwrap().sends_scoped(
                r,
                Method::Post,
                "accounts/"@ + dec(self.id as nat) + "/terms"@,
                PayloadView::Form(params.form_view("enrollment_term"@)),
                Scope { account_id: Some(Some(self.id)), ..Scope::none() },
            ),
    {
        let mut endpoint = String::new();
        endpoint.append("accounts/");
        push_u64(&mut endpoint, self.id);
        endpoint.append("/terms");
        assert(endpoint@ =~= "accounts/"@ + dec(self.id as nat) + "/terms"@);
        let form: Vec<(String, String)> = params.to_form("enrollment_term");
        assert(pairs_view(form@) =~= params.form_view("enrollment_term"@));
        scoped(self.req().post(endpoint.as_str(), form), Scope { account_id: Some(Some(self.id)), ..Scope::empty() })
    }

    /// Stream all grading standards for this account.
    ///
    /// # Canvas API
    /// `GET /api/v1/accounts/:account_id/grading_standards`
    pub fn get_grading_standards(&self) -> (s: PageStream<GradingStandard>)
        requires
            self.requester is Some,
        ensures
            lists(s, *self.requester.unwrap(), self.requester.unwrap().base(), "accounts/"@ + dec(self.id as nat) + "/grading_standards"@, seq![], Scope::none()),
    {
        let mut endpoint = String::new();
        endpoint.append("accounts/");
        push_u64(&mut endpoint, self.id);
        endpoint.append("/grading_standards");
        assert(endpoint@ =~= "accounts/"@ + dec(self.id as nat) + "/grading_standards"@);
        let form: Vec<(String, String)> = Vec::new();
        assert(pairs_view(form@) =~= seq![]);
        PageStream::new(share(self.req()), endpoint.as_str(), form).with_scope(Scope::empty())
    }

    /// Fetch a single grading standard by ID.
    ///
    /// # Canvas API
    /// `GET /api/v1/accounts/:account_id/grading_standards/:grading_standard_id`
    pub fn get_grading_standard(&self, standard_id: u64) -> (r: Result<Request>)
        requires
            self.requester is Some,
        ensures
            self.requester.unwrap().sends_scoped(
                r,
                Method::Get,
                "accounts/"@ + dec(self.id as nat) + "/grading_standards/"@ + dec(standard_id as nat),
                PayloadView::Query(seq![]),
                Scope::none(),
            ),
    {
        let mut endpoint = String::new();
        endpoint.append("accounts/");
        push_u64(&mut endpoint, self.id);
        endpoint.append("/grading_standards/");
        push_u64(&mut endpoint, standard_id);
        assert(endpoint@ =~= "accounts/"@ + dec(self.id as nat) + "/grading_standards/"@ + dec(standard_id as nat));
        let form: Vec<(String, String)> = Vec::new();
        assert(pairs_view(form@) =~= seq![]);
        scoped(self.req().get(endpoint.as_str(), form), Scope::empty())
    }

    /// Fetch a single role by ID.
    ///
    /// # Canvas API
    /// `GET /api/v1/accounts/:account_id/roles/:id`
    pub fn get_role(&self, role_id: u64) -> (r: Result<Request>)
        requires
            self.requester is Some,
        ensures
            self.requester.unwrap().sends_scoped(
                r,
                Method::Get,
                "accounts/"@ + dec(self.id as nat) + "/roles/"@ + dec(role_id as nat),
                PayloadView::Query(seq![]),
                Scope::none(),
            ),
    {
        let mut endpoint = String::new();
        endpoint.append("accounts/");
        push_u64(&mut endpoint, self.id);
        endpoint.append("/roles/");
        push_u64(&mut endpoint, role_id);
        assert(endpoint@ =~= "accounts/"@ + dec(self.id as nat) + "/roles/"@ + dec(role_id as nat));
        let form: Vec<(String, String)> = Vec::new();
        assert(pairs_view(form@) =~= seq![]);
        scoped(self.req().get(endpoint.as_str(), form), Scope::empty())
    }

    /// Stream all roles for this account.
    ///
    /// # Canvas API
    /// `GET /api/v1/accounts/:account_id/roles`
    pub fn get_roles(&self) -> (s: PageStream<JsonValue>)
        requires
            self.requester is Some,
        ensures
            lists(s, *self.requester.unwrap(), self.requester.unwrap().base(), "accounts/"@ + dec(self.id as nat) + "/roles"@, seq![], Scope::none()),
    {
        let mut endpoint = String::new();
        endpoint.append("accounts/");
        push_u64(&mut endpoint, self.id);
        endpoint.append("/roles");
        assert(endpoint@ =~= "accounts/"@ + dec(self.id as nat) + "/roles"@);
        let form: Vec<(String, String)> = Vec::new();
        assert(pairs_view(form@) =~= seq![]);
        PageStream::new(share(self.req()), endpoint.as_str(), form).with_scope(Scope::empty())
    }

    /// Deactivate a role by ID.
    ///
    /// # Canvas API
    /// `DELETE /api/v1/accounts/:account_id/roles/:id`
    pub fn deactivate_role(&self, role_id: u64) -> (r: Result<Request>)
        requires
            self.requester is Some,
        ensures
            self.requester.unwrap().sends_scoped(
                r,
                Method::Delete,
                "accounts/"@ + dec(self.id as nat) + "/roles/"@ + dec(role_id as nat),
                PayloadView::Query(seq![]),
                Scope::none(),
            ),
    {
        let mut endpoint = String::new();
        endpoint.append("accounts/");
        push_u64(&mut endpoint, self.id);
        endpoint.append("/roles/");
        push_u64(&mut endpoint, role_id);
        assert(endpoint@ =~= "accounts/"@ + dec(self.id as nat) + "/roles/"@ + dec(role_id as nat));
        let form: Vec<(String, String)> = Vec::new();
        assert(pairs_view(form@) =~= seq![]);
        scoped(self.req().delete(endpoint.as_str(), form), Scope::empty())
    }

    /// Activate a previously deactivated role.
    ///
    /// # Canvas API
    /// `POST /api/v1/accounts/:account_id/roles/:id/activate`
    pub fn activate_role(&self, role_id: u64) -> (r: Result<Request>)
        requires
            self.requester is Some,
        ensures
            self.requester.unwrap().sends_scoped(
                r,
                Method::Post,
                "accounts/"@ + dec(self.id as nat) + "/roles/"@ + dec(role_id as nat) + "/activate"@,
                PayloadView::Form(seq![]),
                Scope::none(),
            ),
    {
        let mut endpoint = String::new();
        endpoint.append("accounts/");
        push_u64(&mut endpoint, self.id);
        endpoint.append("/roles/");
        push_u64(&mut endpoint, role_id);
        endpoint.append("/activate");
        assert(endpoint@ =~= "accounts/"@ + dec(self.id as nat) + "/roles/"@ + dec(role_id as nat) + "/activate"@);
        let form: Vec<(String, String)> = Vec::new();
        assert(pairs_view(form@) =~= seq![]);
        scoped(self.req().post(endpoint.as_str(), form), Scope::empty())
    }

    /// Fetch a single content export by ID.
    ///
    /// # Canvas API
    /// `GET /api/v1/accounts/:account_id/content_exports/:id`
    pub fn get_content_export(&self, export_id: u64) -> (r: Result<Request>)
        requires
            self.requester is Some,
        ensures
            self.requester.unwrap().sends_scoped(
                r,
                Method::Get,
                "accounts/"@ + dec(self.id as nat) + "/content_exports/"@ + dec(export_id as nat),
                PayloadView::Query(seq![]),
                Scope::none(),
            ),
    {
        let mut endpoint = String::new();
        endpoint.append("accounts/");
        push_u64(&mut endpoint, self.id);
        endpoint.append("/content_exports/");
        push_u64(&mut endpoint, export_id);
        assert(endpoint@ =~= "accounts/"@ + dec(self.id as nat) + "/content_exports/"@ + dec(export_id as nat));
        let form: Vec<(String, String)> = Vec::new();
        assert(pairs_view(form@) =~= seq![]);
        scoped(self.req().get(endpoint.as_str(), form), Scope::empty())
    }

    /// Stream all content exports for this account.
    ///
    /// # Canvas API
    /// `GET /api/v1/accounts/:account_id/content_exports`
    pub fn get_content_exports(&self) -> (s: PageStream<ContentExport>)
        requires
            self.requester is Some,
        ensures
            lists(s, *self.requester.unwrap(), self.requester.unwrap().base(), "accounts/"@ + dec(self.id as nat) + "/content_exports"@, seq![], Scope::none()),
    {
        let mut endpoint = String::new();
        endpoint.append("accounts/");
        push_u64(&mut endpoint, self.id);
        endpoint.append("/content_exports");
        assert(endpoint@ =~= "accounts/"@ + dec(self.id as nat) + "/content_exports"@);
        let form: Vec<(String, String)> = Vec::new();
        assert(pairs_view(form@) =~= seq![]);
        PageStream::new(share(self.req()), endpoint.as_str(), form).with_scope(Scope::empty())
    }

    /// Stream all feature flags for this account.
    ///
    /// # Canvas API
    /// `GET /api/v1/accounts/:account_id/features`
    pub fn get_features(&self) -> (s: PageStream<Feature>)
        requires
            self.requester is Some,
        ensures
            lists(s, *self.requester.unwrap(), self.requester.unwrap().base(), "accounts/"@ + dec(self.id as nat) + "/features"@, seq![], Scope::none()),
    {
        let mut endpoint = String::new();
        endpoint.append("accounts/");
        push_u64(&mut endpoint, self.id);
        endpoint.append("/features");
        assert(endpoint@ =~= "accounts/"@ + dec(self.id as nat) + "/features"@);
        let form: Vec<(String, String)> = Vec::new();
        assert(pairs_view(form@) =~= seq![]);
        PageStream::new(share(self.req()), endpoint.as_str(), form).with_scope(Scope::empty())
    }

    /// Fetch a specific feature flag for this account by feature name.
    ///
    /// # Canvas API
    /// `GET /api/v1/accounts/:account_id/features/flags/:feature`
    pub fn get_feature_flag(&self, feature: &str) -> (r: Result<Request>)
        requires
            self.requester is Some,
        ensures
            self.requester.unwrap().sends_scoped(
                r,
                Method::Get,
                "accounts/"@ + dec(self.id as nat) + "/features/flags/"@ + feature@,
                PayloadView::Query(seq![]),
                Scope::none(),
            ),
    {
        let mut endpoint = String::new();
        endpoint.append("accounts/");
        push_u64(&mut endpoint, self.id);
        endpoint.append("/features/flags/");
        endpoint.append(feature);
        assert(endpoint@ =~= "accounts/"@ + dec(self.id as nat) + "/features/flags/"@ + feature@);
        let form: Vec<(String, String)> = Vec::new();
        assert(pairs_view(form@) =~= seq![]);
        scoped(self.req().get(endpoint.as_str(), form), Scope::empty())
    }

    /// List all enabled feature names for this account.
    ///
    /// # Canvas API
    /// `GET /api/v1/accounts/:account_id/features/enabled`
    pub fn get_enabled_features(&self) -> (r: Result<Request>)
        requires
            self.requester is Some,
        ensures
            self.requester.unwrap().sends_scoped(
                r,
                Method::Get,
                "accounts/"@ + dec(self.id as nat) + "/features/enabled"@,
                PayloadView::Query(seq![]),
                Scope::none(),
            ),
    {
        let mut endpoint = String::new();
        endpoint.append("accounts/");
        push_u64(&mut endpoint, self.id);
        endpoint.append("/features/enabled");
        assert(endpoint@ =~= "accounts/"@ + dec(self.id as nat) + "/features/enabled"@);
        let form: Vec<(String, String)> = Vec::new();
        assert(pairs_view(form@) =~= seq![]);
        scoped(self.req().get(endpoint.as_str(), form), Scope::empty())
    }

    /// Update this account.
    ///
    /// # Canvas API
    /// `PUT /api/v1/accounts/:id`
    pub fn update(&self, params: UpdateAccountParams) -> (r: Result<Request>)
        requires
            self.requester is Some,
        ensures
            self.requester.unwrap().sends_scoped(
                r,
                Method::Put,
                "accounts/"@ + dec(self.id as nat),
                PayloadView::Form(params.form_view("account"@)),
                Scope::none(),
            ),
    {
        let mut endpoint = String::new();
        endpoint.append("accounts/");
        push_u64(&mut endpoint, self.id);
        assert(endpoint@ =~= "accounts/"@ + dec(self.id as nat));
        let form: Vec<(String, String)> = params.to_form("account");
        assert(pairs_view(form@) =~= params.form_view("account"@));
        scoped(self.req().put(endpoint.as_str(), form), Scope::empty())
    }

    /// Stream all sub-accounts of this account.
    ///
    /// # Canvas API
    /// `GET /api/v1/accounts/:id/sub_accounts`
    pub fn get_subaccounts(&self) -> (s: PageStream<Account>)
        requires
            self.requester is Some,
        ensures
            lists(s, *self.requester.unwrap(), self.requester.unwrap().base(), "accounts/"@ + dec(self.id as nat) + "/sub_accounts"@, seq![], Scope::none()),
    {
        let mut endpoint = String::new();
        endpoint.append("accounts/");
        push_u64(&mut endpoint, self.id);
        endpoint.append("/sub_accounts");
        assert(endpoint@ =~= "accounts/"@ + dec(self.id as nat) + "/sub_accounts"@);
        let form: Vec<(String, String)> = Vec::new();
        assert(pairs_view(form@) =~= seq![]);
        PageStream::new(share(self.req()), endpoint.as_str(), form).with_scope(Scope::empty())
    }

    /// Create a sub-account under this account.
    ///
    /// # Canvas API
    /// `POST /api/v1/accounts/:id/sub_accounts`
    pub fn create_subaccount(&self, name: &str) -> (r: Result<Request>)
        requires
            self.requester is Some,
        ensures
            self.requester.unwrap().sends_scoped(
                r,
                Method::Post,
                "accounts/"@ + dec(self.id as nat) + "/sub_accounts"@,
                PayloadView::Form(seq![("account[name]"@, name@)]),
                Scope::none(),
            ),
    {
        let mut endpoint = String::new();
        endpoint.append("accounts/");
        push_u64(&mut endpoint, self.id);
        endpoint.append("/sub_accounts");
        assert(endpoint@ =~= "accounts/"@ + dec(self.id as nat) + "/sub_accounts"@);
        let form: Vec<(String, String)> = vec![("account[name]".to_owned(), name.to_owned())];
        assert(pairs_view(form@) =~= seq![("account[name]"@, name@)]);
        scoped(self.req().post(endpoint.as_str(), form), Scope::empty())
    }

    /// Stream all users in this account.
    ///
    /// # Canvas API
    /// `GET /api/v1/accounts/:id/users`
    pub fn get_users(&self) -> (s: PageStream<JsonValue>)
        requires
            self.requester is Some,
        ensures
            lists(s, *self.requester.unwrap(), self.requester.unwrap().base(), "accounts/"@ + dec(self.id as nat) + "/users"@, seq![], Scope::none()),
    {
        let mut endpoint = String::new();
        endpoint.append("accounts/");
        push_u64(&mut endpoint, self.id);
        endpoint.append("/users");
        assert(endpoint@ =~= "accounts/"@ + dec(self.id as nat) + "/users"@);
        let form: Vec<(String, String)> = Vec::new();
        assert(pairs_view(form@) =~= seq![]);
        PageStream::new(share(self.req()), endpoint.as_str(), form).with_scope(Scope::empty())
    }

    /// Delete a user from this account.
    ///
    /// # Canvas API
    /// `DELETE /api/v1/accounts/:id/users/:user_id`
    pub fn delete_user(&self, user_id: u64) -> (r: Result<Request>)
        requires
            self.requester is Some,
        ensures
            self.requester.unwrap().sends_scoped(
                r,
                Method::Delete,
                "accounts/"@ + dec(self.id as nat) + "/users/"@ + dec(user_id as nat),
                PayloadView::Query(seq![]),
                Scope::none(),
            ),
    {
        let mut endpoint = String::new();
        endpoint.append("accounts/");
        push_u64(&mut endpoint, self.id);
        endpoint.append("/users/");
        push_u64(&mut endpoint, user_id);
        assert(endpoint@ =~= "accounts/"@ + dec(self.id as nat) + "/users/"@ + dec(user_id as nat));
        let form: Vec<(String, String)> = Vec::new();
        assert(pairs_view(form@) =~= seq![]);
        scoped(self.req().delete(endpoint.as_str(), form), Scope::empty())
    }

    /// Stream all courses in this account.
    ///
    /// # Canvas API
    /// `GET /api/v1/accounts/:id/courses`
    pub fn get_courses(&self) -> (s: PageStream<Course>)
        requires
            self.requester is Some,
        ensures
            lists(s, *self.requester.unwrap(), self.requester.unwrap().base(), "accounts/"@ + dec(self.id as nat) + "/courses"@, seq![], Scope::none()),
    {
        let mut endpoint = String::new();
        endpoint.append("accounts/");
        push_u64(&mut endpoint, self.id);
        endpoint.append("/courses");
        assert(endpoint@ =~= "accounts/"@ + dec(self.id as nat) + "/courses"@);
        let form: Vec<(String, String)> = Vec::new();
        assert(pairs_view(form@) =~= seq![]);
        PageStream::new(share(self.req()), endpoint.as_str(), form).with_scope(Scope::empty())
    }

    /// Stream all groups in this account.
    ///
    /// # Canvas API
    /// `GET /api/v1/accounts/:id/groups`
    pub fn get_groups(&self) -> (s: PageStream<Group>)
        requires
            self.requester is Some,
        ensures
            lists(s, *self.requester.unwrap(), self.requester.unwrap().base(), "accounts/"@ + dec(self.id as nat) + "/groups"@, seq![], Scope::none()),
    {
        let mut endpoint = String::new();
        endpoint.append("accounts/");
        push_u64(&mut endpoint, self.id);
        endpoint.append("/groups");
        assert(endpoint@ =~= "accounts/"@ + dec(self.id as nat) + "/groups"@);
        let form: Vec<(String, String)> = Vec::new();
        assert(pairs_view(form@) =~= seq![]);
        PageStream::new(share(self.req()), endpoint.as_str(), form).with_scope(Scope::empty())
    }

    /// Stream all group categories in this account.
    ///
    /// # Canvas API
    /// `GET /api/v1/accounts/:id/group_categories`
    pub fn get_group_categories(&self) -> (s: PageStream<GroupCategory>)
        requires
            self.requester is Some,
        ensures
            lists(s, *self.requester.unwrap(), self.requester.unwrap().base(), "accounts/"@ + dec(self.id as nat) + "/group_categories"@, seq![], Scope::none()),
    {
        let mut endpoint = String::new();
        endpoint.append("accounts/");
        push_u64(&mut endpoint, self.id);
        endpoint.append("/group_categories");
        assert(endpoint@ =~= "accounts/"@ + dec(self.id as nat) + "/group_categories"@);
        let form: Vec<(String, String)> = Vec::new();
        assert(pairs_view(form@) =~= seq![]);
        PageStream::new(share(self.req()), endpoint.as_str(), form).with_scope(Scope::empty())
    }

    /// Create a group category in this account.
    ///
    /// # Canvas API
    /// `POST /api/v1/accounts/:id/group_categories`
    pub fn create_group_category(&self, params: GroupCategoryParams) -> (r: Result<Request>)
        requires
            self.requester is Some,
        ensures
            self.requester.unwrap().sends_scoped(
                r,
                Method::Post,
                "accounts/"@ + dec(self.id as nat) + "/group_categories"@,
                PayloadView::Form(params.form_view("group_category"@)),
                Scope::none(),
            ),
    {
        let mut endpoint = String::new();
        endpoint.append("accounts/");
        push_u64(&mut endpoint, self.id);
        endpoint.append("/group_categories");
        assert(endpoint@ =~= "accounts/"@ + dec(self.id as nat) + "/group_categories"@);
        let form: Vec<(String, String)> = params.to_form("group_category");
        assert(pairs_view(form@) =~= params.form_view("group_category"@));
        scoped(self.req().post(endpoint.as_str(), form), Scope::empty())
    }

    /// Stream all admins for this account.
    ///
    /// # Canvas API
    /// `GET /api/v1/accounts/:id/admins`
    pub fn get_admins(&self) -> (s: PageStream<JsonValue>)
        requires
            self.requester is Some,
        ensures
            lists(s, *self.requester.unwrap(), self.requester.unwrap().base(), "accounts/"@ + dec(self.id as nat) + "/admins"@, seq![], Scope::none()),
    {
        let mut endpoint = String::new();
        endpoint.append("accounts/");
        push_u64(&mut endpoint, self.id);
        endpoint.append("/admins");
        assert(endpoint@ =~= "accounts/"@ + dec(self.id as nat) + "/admins"@);
        let form: Vec<(String, String)> = Vec::new();
        assert(pairs_view(form@) =~= seq![]);
        PageStream::new(share(self.req()), endpoint.as_str(), form).with_scope(Scope::empty())
    }

    /// Create an admin for this account.
    ///
    /// # Canvas API
    /// `POST /api/v1/accounts/:id/admins`
    pub fn create_admin(&self, user_id: u64) -> (r: Result<Request>)
        requires
            self.requester is Some,
        ensures
            self.requester.unwrap().sends_scoped(
                r,
                Method::Post,
                "accounts/"@ + dec(self.id as nat) + "/admins"@,
                PayloadView::Form(seq![("user_id"@, dec(user_id as nat))]),
                Scope::none(),
            ),
    {
        let mut endpoint = String::new();
        endpoint.append("accounts/");
        push_u64(&mut endpoint, self.id);
        endpoint.append("/admins");
        assert(endpoint@ =~= "accounts/"@ + dec(self.id as nat) + "/admins"@);
        let form: Vec<(String, String)> = vec![("user_id".to_owned(), u64_to_text(user_id))];
        assert(pairs_view(form@) =~= seq![("user_id"@, dec(user_id as nat))]);
        scoped(self.req().post(endpoint.as_str(), form), Scope::empty())
    }

    /// Stream all authentication providers for this account.
    ///
    /// # Canvas API
    /// `GET /api/v1/accounts/:id/authentication_providers`
    pub fn get_authentication_providers(&self) -> (s: PageStream<JsonValue>)
        requires
            self.requester is Some,
        ensures
            lists(s, *self.requester.unwrap(), self.requester.unwrap().base(), "accounts/"@ + dec(self.id as nat) + "/authentication_providers"@, seq![], Scope::none()),
    {
        let mut endpoint = String::new();
        endpoint.append("accounts/");
        push_u64(&mut endpoint, self.id);
        endpoint.append("/authentication_providers");
        assert(endpoint@ =~= "accounts/"@ + dec(self.id as nat) + "/authentication_providers"@);
        let form: Vec<(String, String)> = Vec::new();
        assert(pairs_view(form@) =~= seq![]);
        PageStream::new(share(self.req()), endpoint.as_str(), form).with_scope(Scope::empty())
    }

    /// Create a new user in this account.
    ///
    /// # Canvas API
    /// `POST /api/v1/accounts/:id/users`
    pub fn create_user(&self, params: Vec<(String, String)>) -> (r: Result<Request>)
        requires
            self.requester is Some,
        ensures
            self.requester.unwrap().sends_scoped(
                r,
                Method::Post,
                "accounts/"@ + dec(self.id as nat) + "/users"@,
                PayloadView::Form(pairs_view(params@)),
                Scope::none(),
            ),
    {
        let mut endpoint = String::new();
        endpoint.append("accounts/");
        push_u64(&mut endpoint, self.id);
        endpoint.append("/users");
        assert(endpoint@ =~= "accounts/"@ + dec(self.id as nat) + "/users"@);
        let form: Vec<(String, String)> = params;
        assert(pairs_view(form@) =~= pairs_view(params@));
        scoped(self.req().post(endpoint.as_str(), form), Scope::empty())
    }

    /// Stream all reports of a given type for this account.
    ///
    /// # Canvas API
    /// `GET /api/v1/accounts/:id/reports/:report_type`
    pub fn get_reports(&self, report_type: &str) -> (s: PageStream<JsonValue>)
        requires
            self.requester is Some,
        ensures
            lists(s, *self.requester.unwrap(), self.requester.unwrap().base(), "accounts/"@ + dec(self.id as nat) + "/reports/"@ + report_type@, seq![], Scope::none()),
    {
        let mut endpoint = String::new();
        endpoint.append("accounts/");
        push_u64(&mut endpoint, self.id);
        endpoint.append("/reports/");
        endpoint.append(report_type);
        assert(endpoint@ =~= "accounts/"@ + dec(self.id as nat) + "/reports/"@ + report_type@);
        let form: Vec<(String, String)> = Vec::new();
        assert(pairs_view(form@) =~= seq![]);
        PageStream::new(share(self.req()), endpoint.as_str(), form).with_scope(Scope::empty())
    }

    /// Create (run) a report for this account.
    ///
    /// # Canvas API
    /// `POST /api/v1/accounts/:id/reports/:report_type`
    pub fn create_report(&self, report_type: &str, params: Vec<(String, String)>) -> (r: Result<Request>)
        requires
            self.requester is Some,
        ensures
            self.requester.unwrap().sends_scoped(
                r,
                Method::Post,
                "accounts/"@ + dec(self.id as nat) + "/reports/"@ + report_type@,
                PayloadView::Form(pairs_view(params@)),
                Scope::none(),
            ),
    {
        let mut endpoint = String::new();
        endpoint.append("accounts/");
        push_u64(&mut endpoint, self.id);
        endpoint.append("/reports/");
        endpoint.append(report_type);
        assert(endpoint@ =~= "accounts/"@ + dec(self.id as nat) + "/reports/"@ + report_type@);
        let form: Vec<(String, String)> = params;
        assert(pairs_view(form@) =~= pairs_view(params@));
        scoped(self.req().post(endpoint.as_str(), form), Scope::empty())
    }

    /// Get the status of an outcome import for this account.
    ///
    /// # Canvas API
    /// `GET /api/v1/accounts/:id/outcome_imports/:id`
    pub fn get_outcome_import_status(&self, import_id: u64) -> (r: Result<Request>)
        requires
            self.requester is Some,
        ensures
            self.requester.unwrap().sends_scoped(
                r,
                Method::Get,
                "accounts/"@ + dec(self.id as nat) + "/outcome_imports/"@ + dec(import_id as nat),
                PayloadView::Query(seq![]),
                Scope::none(),
            ),
    {
        let mut endpoint = String::new();
        endpoint.append("accounts/");
        push_u64(&mut endpoint, self.id);
        endpoint.append("/outcome_imports/");
        push_u64(&mut endpoint, import_id);
        assert(endpoint@ =~= "accounts/"@ + dec(self.id as nat) + "/outcome_imports/"@ + dec(import_id as nat));
        let form: Vec<(String, String)> = Vec::new();
        assert(pairs_view(form@) =~= seq![]);
        scoped(self.req().get(endpoint.as_str(), form), Scope::empty())
    }
}

/// The settings of a role: its base role type and its permissions.
#[derive(Debug)]
pub struct RoleParams {
    pub base_role_type: Option<String>,
    pub permissions: Option<JsonValue>,
}

/// The parameters of a role's permissions, under `permissions`.
pub open spec fn permissions_view(p: Option<JsonValue>) -> Seq<(Seq<char>, Seq<char>)> {
    match p {
        Some(v) => canvas_params("permissions"@, v),
        None => seq![],
    }
}

impl Account {
    /// Abort all pending SIS imports of this account.
    ///
    /// # Canvas API
    /// `PUT /api/v1/accounts/:account_id/sis_imports/abort_all_pending`
    pub fn abort_sis_imports_pending(&self) -> (r: Result<Request>)
        requires
            self.requester is Some,
        ensures
            self.requester.unwrap().sends_scoped(
                r,
                Method::Put,
                "accounts/"@ + dec(self.id as nat) + "/sis_imports/abort_all_pending"@,
                PayloadView::Form(seq![]),
                Scope::none(),
            ),
    {
        let mut endpoint = String::new();
        endpoint.append("accounts/");
        push_u64(&mut endpoint, self.id);
        endpoint.append("/sis_imports/abort_all_pending");
        assert(endpoint@ =~= "accounts/"@ + dec(self.id as nat) + "/sis_imports/abort_all_pending"@);
        let form: Vec<(String, String)> = Vec::new();
        assert(pairs_view(form@) =~= seq![]);
        scoped(self.req().put(endpoint.as_str(), form), Scope::empty())
    }

    /// Whether Canvas aborted the pending imports: the response's `aborted`
    /// member, `false` when it is missing or not a boolean.
    pub fn abort_sis_imports_pending_outcome(response: &JsonValue) -> (b: bool)
        ensures
            b == flag_spec(*response, "aborted"@),
    {
        flag(response, "aborted")
    }

    /// Create a custom role.
    ///
    /// # Canvas API
    /// `POST /api/v1/accounts/:account_id/roles`
    pub fn create_role(&self, label: &str, params: RoleParams) -> (r: Result<Request>)
        requires
            self.requester is Some,
        ensures
            self.requester.unwrap().sends_scoped(
                r,
                Method::Post,
                "accounts/"@ + dec(self.id as nat) + "/roles"@,
                PayloadView::Form(
                    seq![("label"@, label@)] + entry("base_role_type"@, text_of(params.base_role_type))
                        + permissions_view(params.permissions),
                ),
                Scope::none(),
            ),
    {
        let mut endpoint = String::new();
        endpoint.append("accounts/");
        push_u64(&mut endpoint, self.id);
        endpoint.append("/roles");
        assert(endpoint@ =~= "accounts/"@ + dec(self.id as nat) + "/roles"@);
        let mut form: Vec<(String, String)> = vec![("label".to_owned(), label.to_owned())];
        assert(pairs_view(form@) =~= seq![("label"@, label@)]);
        add_text_at(&mut form, "base_role_type", &params.base_role_type);
        add_json_at(&mut form, "permissions", &params.permissions);
        scoped(self.req().post(endpoint.as_str(), form), Scope::empty())
    }

    /// Update a role's permissions.
    ///
    /// # Canvas API
    /// `PUT /api/v1/accounts/:account_id/roles/:id`
    pub fn update_role(&self, role_id: u64, params: RoleParams) -> (r: Result<Request>)
        requires
            self.requester is Some,
        ensures
            self.requester.unwrap().sends_scoped(
                r,
                Method::Put,
                "accounts/"@ + dec(self.id as nat) + "/roles/"@ + dec(role_id as nat),
                PayloadView::Form(permissions_view(params.permissions)),
                Scope::none(),
            ),
    {
        let mut endpoint = String::new();
        endpoint.append("accounts/");
        push_u64(&mut endpoint, self.id);
        endpoint.append("/roles/");
        push_u64(&mut endpoint, role_id);
        assert(endpoint@ =~= "accounts/"@ + dec(self.id as nat) + "/roles/"@ + dec(role_id as nat));
        let mut form: Vec<(String, String)> = Vec::new();
        assert(pairs_view(form@) =~= seq![]);
        add_json_at(&mut form, "permissions", &params.permissions);
        assert(pairs_view(form@) =~= permissions_view(params.permissions));
        scoped(self.req().put(endpoint.as_str(), form), Scope::empty())
    }

    /// Start a content export of this account.
    ///
    /// # Canvas API
    /// `POST /api/v1/accounts/:account_id/content_exports`
    pub fn create_content_export(&self, params: ContentExportParams) -> (r: Result<Request>)
        requires
            self.requester is Some,
        ensures
            self.requester.unwrap().sends_scoped(
                r,
                Method::Post,
                "accounts/"@ + dec(self.id as nat) + "/content_exports"@,
                PayloadView::Form(params.export_form_view()),
                Scope::none(),
            ),
    {
        let mut endpoint = String::new();
        endpoint.append("accounts/");
        push_u64(&mut endpoint, self.id);
        endpoint.append("/content_exports");
        assert(endpoint@ =~= "accounts/"@ + dec(self.id as nat) + "/content_exports"@);
        let form = params.to_export_form();
        scoped(self.req().post(endpoint.as_str(), form), Scope::empty())
    }

    /// Create a grading standard in this account.
    ///
    /// # Canvas API
    /// `POST /api/v1/accounts/:account_id/grading_standards`
    pub fn create_grading_standard(&self, params: GradingStandardParams) -> (r: Result<Request>)
        requires
            self.requester is Some,
        ensures
            self.requester.unwrap().sends_scoped(
                r,
                Method::Post,
                "accounts/"@ + dec(self.id as nat) + "/grading_standards"@,
                PayloadView::Form(params.standard_form_view()),
                Scope::none(),
            ),
    {
        let mut endpoint = String::new();
        endpoint.append("accounts/");
        push_u64(&mut endpoint, self.id);
        endpoint.append("/grading_standards");
        assert(endpoint@ =~= "accounts/"@ + dec(self.id as nat) + "/grading_standards"@);
        let form = params.to_standard_form();
        scoped(self.req().post(endpoint.as_str(), form), Scope::empty())
    }
}

impl Account {
    /// Create a content migration on this account: `migration_type`, then the
    /// given parameters as they are.
    ///
    /// # Canvas API
    /// `POST /api/v1/accounts/:account_id/content_migrations`
    pub fn create_content_migration(&self, migration_type: &str, params: Vec<(String, String)>) -> (r:
        Result<Request>)
        requires
            self.requester is Some,
        ensures
            self.requester.unwrap().sends_scoped(
                r,
                Method::Post,
                "accounts/"@ + dec(self.id as nat) + "/content_migrations"@,
                PayloadView::Form(seq![("migration_type"@, migration_type@)] + pairs_view(params@)),
                Scope::none(),
            ),
    {
        let mut endpoint = String::new();
        endpoint.append("accounts/");
        push_u64(&mut endpoint, self.id);
        endpoint.append("/content_migrations");
        let form = prepend_pair("migration_type", migration_type, params);
        scoped(self.req().post(endpoint.as_str(), form), Scope::empty())
    }
}

} // verus!
