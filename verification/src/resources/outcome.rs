use vstd::prelude::*;
use std::sync::Arc;
use crate::error::Result;
use crate::http::{scoped, share, Method, PayloadView, Request, Requester, Scope};
use crate::json::{get, text_member_spec, u64_member, u64_member_spec, JsonValue};
use crate::pagination::{lists, PageStream};
use crate::params::{
    add_text, add_u64, concat_upto, field, lemma_part_in_concat, member_key, pairs_view,
    prepend_pair, text_of, u64_of,
};
use crate::text::{dec, id_or, id_or_spec, push_u64, u64_to_text};
use crate::resources::account::Account;
use crate::resources::course::Course;

verus! {

/// A Canvas learning outcome.
#[derive(Debug)]
pub struct Outcome {
    pub id: u64,
    pub url: Option<String>,
    pub context_id: Option<u64>,
    pub context_type: Option<String>,
    pub title: Option<String>,
    pub display_name: Option<String>,
    pub description: Option<String>,
    pub vendor_guid: Option<String>,
    /// A decimal, as the text `serde_json` prints for it (`10.0`, `2.5`).
    pub points_possible: Option<String>,
    /// A decimal, as the text `serde_json` prints for it (`10.0`, `2.5`).
    pub mastery_points: Option<String>,
    pub calculation_method: Option<String>,
    pub calculation_int: Option<u64>,
    pub ratings: Option<Vec<JsonValue>>,
    pub can_edit: Option<bool>,
    pub can_unlink: Option<bool>,
    pub assessed: Option<bool>,
    pub has_updateable_rubrics: Option<bool>,
    pub requester: Option<Arc<Requester>>,
}

impl Outcome {
    /// Takes in this Outcome as fetched: it keeps `requester` for its own calls.
    pub fn adopt(&mut self, requester: Arc<Requester>, scope: &Scope)
        ensures
            final(self).requester == Some(requester),
            final(self).id == old(self).id,
            final(self).url == old(self).url,
            final(self).context_id == old(self).context_id,
            final(self).context_type == old(self).context_type,
            final(self).title == old(self).title,
            final(self).display_name == old(self).display_name,
            final(self).description == old(self).description,
            final(self).vendor_guid == old(self).vendor_guid,
            final(self).points_possible == old(self).points_possible,
            final(self).mastery_points == old(self).mastery_points,
            final(self).calculation_method == old(self).calculation_method,
            final(self).calculation_int == old(self).calculation_int,
            final(self).ratings == old(self).ratings,
            final(self).can_edit == old(self).can_edit,
            final(self).can_unlink == old(self).can_unlink,
            final(self).assessed == old(self).assessed,
            final(self).has_updateable_rubrics == old(self).has_updateable_rubrics,
    {
        self.requester = Some(requester);
    }

    fn req(&self) -> (r: &Arc<Requester>)
        requires
            self.requester is Some,
        ensures
            *r == self.requester.unwrap(),
    {
        self.requester.as_ref().unwrap()
    }

    /// Update this outcome.
    ///
    /// # Canvas API
    /// `PUT /api/v1/outcomes/:id`
    pub fn update(&self, params: UpdateOutcomeParams) -> (r: Result<Request>)
        requires
            self.requester is Some,
        ensures
            self.requester.unwrap().sends_scoped(
                r,
                Method::Put,
                "outcomes/"@ + dec(self.id as nat),
                PayloadView::Form(params.form_view("outcome"@)),
                Scope::none(),
            ),
    {
        let mut endpoint = String::new();
        endpoint.append("outcomes/");
        push_u64(&mut endpoint, self.id);
        assert(endpoint@ =~= "outcomes/"@ + dec(self.id as nat));
        let form: Vec<(String, String)> = params.to_form("outcome");
        assert(pairs_view(form@) =~= params.form_view("outcome"@));
        scoped(self.req().put(endpoint.as_str(), form), Scope::empty())
    }
}

/// Parameters for updating an outcome.
#[derive(Debug, Default)]
pub struct UpdateOutcomeParams {
    pub title: Option<String>,
    pub display_name: Option<String>,
    pub description: Option<String>,
    pub vendor_guid: Option<String>,
    /// A decimal, as the text `serde_json` prints for it (`10.0`, `2.5`).
    pub mastery_points: Option<String>,
    pub calculation_method: Option<String>,
    pub calculation_int: Option<u64>,
}

impl UpdateOutcomeParams {
    /// The parameters these settings give under `key`: `key[member]` for each
    /// member that is set, in the order of the member names.
    pub open spec fn form_view(self, key: Seq<char>) -> Seq<(Seq<char>, Seq<char>)> {
        field(key, "calculation_int"@, u64_of(self.calculation_int))
        + field(key, "calculation_method"@, text_of(self.calculation_method))
        + field(key, "description"@, text_of(self.description))
        + field(key, "display_name"@, text_of(self.display_name))
        + field(key, "mastery_points"@, text_of(self.mastery_points))
        + field(key, "title"@, text_of(self.title))
        + field(key, "vendor_guid"@, text_of(self.vendor_guid))
    }

    /// The parameters these settings give under `key` (what flattening
    /// `{key: settings}` gives).
    pub fn to_form(&self, key: &str) -> (r: Vec<(String, String)>)
        ensures
            pairs_view(r@) == self.form_view(key@),
    {
        let mut out: Vec<(String, String)> = Vec::new();
        add_u64(&mut out, key, "calculation_int", self.calculation_int);
        add_text(&mut out, key, "calculation_method", &self.calculation_method);
        add_text(&mut out, key, "description", &self.description);
        add_text(&mut out, key, "display_name", &self.display_name);
        add_text(&mut out, key, "mastery_points", &self.mastery_points);
        add_text(&mut out, key, "title", &self.title);
        add_text(&mut out, key, "vendor_guid", &self.vendor_guid);
        assert(pairs_view(out@) =~= self.form_view(key@));
        out
    }

    /// Every member of these settings that is set is sent under `key[member]`,
    /// with its text (a boolean as `true`/`false`, a number in decimal).
    pub proof fn lemma_form_sends_members(self, key: Seq<char>)
        ensures
            self.calculation_int is Some ==> self.form_view(key).contains((member_key(key, "calculation_int"@), dec(self.calculation_int.unwrap() as nat))),
            self.calculation_method is Some ==> self.form_view(key).contains((member_key(key, "calculation_method"@), self.calculation_method.unwrap()@)),
            self.description is Some ==> self.form_view(key).contains((member_key(key, "description"@), self.description.unwrap()@)),
            self.display_name is Some ==> self.form_view(key).contains((member_key(key, "display_name"@), self.display_name.unwrap()@)),
            self.mastery_points is Some ==> self.form_view(key).contains((member_key(key, "mastery_points"@), self.mastery_points.unwrap()@)),
            self.title is Some ==> self.form_view(key).contains((member_key(key, "title"@), self.title.unwrap()@)),
            self.vendor_guid is Some ==> self.form_view(key).contains((member_key(key, "vendor_guid"@), self.vendor_guid.unwrap()@)),
    {
        let parts = seq![
            field(key, "calculation_int"@, u64_of(self.calculation_int)),
            field(key, "calculation_method"@, text_of(self.calculation_method)),
            field(key, "description"@, text_of(self.description)),
            field(key, "display_name"@, text_of(self.display_name)),
            field(key, "mastery_points"@, text_of(self.mastery_points)),
            field(key, "title"@, text_of(self.title)),
            field(key, "vendor_guid"@, text_of(self.vendor_guid)),
        ];
        assert(self.form_view(key) == concat_upto(parts, 7)) by {
            assert(concat_upto(parts, 0) == Seq::<(Seq<char>, Seq<char>)>::empty());
            assert(concat_upto(parts, 1) =~= parts[0]);
            assert(concat_upto(parts, 2) == concat_upto(parts, 1) + parts[1]);
            assert(concat_upto(parts, 3) == concat_upto(parts, 2) + parts[2]);
            assert(concat_upto(parts, 4) == concat_upto(parts, 3) + parts[3]);
            assert(concat_upto(parts, 5) == concat_upto(parts, 4) + parts[4]);
            assert(concat_upto(parts, 6) == concat_upto(parts, 5) + parts[5]);
            assert(concat_upto(parts, 7) == concat_upto(parts, 6) + parts[6]);
        }
        assert(self.calculation_int is Some ==> self.form_view(key).contains((member_key(key, "calculation_int"@), dec(self.calculation_int.unwrap() as nat)))) by {
            if self.calculation_int is Some {
                assert(parts[0][0] == (member_key(key, "calculation_int"@), dec(self.calculation_int.unwrap() as nat)));
                lemma_part_in_concat(parts, 7, 0, (member_key(key, "calculation_int"@), dec(self.calculation_int.unwrap() as nat)));
            }
        }
        assert(self.calculation_method is Some ==> self.form_view(key).contains((member_key(key, "calculation_method"@), self.calculation_method.unwrap()@))) by {
            if self.calculation_method is Some {
                assert(parts[1][0] == (member_key(key, "calculation_method"@), self.calculation_method.unwrap()@));
                lemma_part_in_concat(parts, 7, 1, (member_key(key, "calculation_method"@), self.calculation_method.unwrap()@));
            }
        }
        assert(self.description is Some ==> self.form_view(key).contains((member_key(key, "description"@), self.description.unwrap()@))) by {
            if self.description is Some {
                assert(parts[2][0] == (member_key(key, "description"@), self.description.unwrap()@));
                lemma_part_in_concat(parts, 7, 2, (member_key(key, "description"@), self.description.unwrap()@));
            }
        }
        assert(self.display_name is Some ==> self.form_view(key).contains((member_key(key, "display_name"@), self.display_name.unwrap()@))) by {
            if self.display_name is Some {
                assert(parts[3][0] == (member_key(key, "display_name"@), self.display_name.unwrap()@));
                lemma_part_in_concat(parts, 7, 3, (member_key(key, "display_name"@), self.display_name.unwrap()@));
            }
        }
        assert(self.mastery_points is Some ==> self.form_view(key).contains((member_key(key, "mastery_points"@), self.mastery_points.unwrap()@))) by {
            if self.mastery_points is Some {
                assert(parts[4][0] == (member_key(key, "mastery_points"@), self.mastery_points.unwrap()@));
                lemma_part_in_concat(parts, 7, 4, (member_key(key, "mastery_points"@), self.mastery_points.unwrap()@));
            }
        }
        assert(self.title is Some ==> self.form_view(key).contains((member_key(key, "title"@), self.title.unwrap()@))) by {
            if self.title is Some {
                assert(parts[5][0] == (member_key(key, "title"@), self.title.unwrap()@));
                lemma_part_in_concat(parts, 7, 5, (member_key(key, "title"@), self.title.unwrap()@));
            }
        }
        assert(self.vendor_guid is Some ==> self.form_view(key).contains((member_key(key, "vendor_guid"@), self.vendor_guid.unwrap()@))) by {
            if self.vendor_guid is Some {
                assert(parts[6][0] == (member_key(key, "vendor_guid"@), self.vendor_guid.unwrap()@));
                lemma_part_in_concat(parts, 7, 6, (member_key(key, "vendor_guid"@), self.vendor_guid.unwrap()@));
            }
        }
    }
}

/// A group of learning outcomes.
#[derive(Debug)]
pub struct OutcomeGroup {
    pub id: u64,
    pub url: Option<String>,
    pub parent_outcome_group: Option<Box<OutcomeGroup>>,
    pub context_id: Option<u64>,
    pub context_type: Option<String>,
    pub title: Option<String>,
    pub description: Option<String>,
    pub vendor_guid: Option<String>,
    pub subgroups_url: Option<String>,
    pub outcomes_url: Option<String>,
    pub can_edit: Option<bool>,
    pub requester: Option<Arc<Requester>>,
}

impl OutcomeGroup {
    /// Takes in this OutcomeGroup as fetched: it keeps `requester` for its own calls.
    pub fn adopt(&mut self, requester: Arc<Requester>, scope: &Scope)
        ensures
            final(self).requester == Some(requester),
            final(self).id == old(self).id,
            final(self).url == old(self).url,
            final(self).parent_outcome_group == old(self).parent_outcome_group,
            final(self).context_id == old(self).context_id,
            final(self).context_type == old(self).context_type,
            final(self).title == old(self).title,
            final(self).description == old(self).description,
            final(self).vendor_guid == old(self).vendor_guid,
            final(self).subgroups_url == old(self).subgroups_url,
            final(self).outcomes_url == old(self).outcomes_url,
            final(self).can_edit == old(self).can_edit,
    {
        self.requester = Some(requester);
    }

    fn req(&self) -> (r: &Arc<Requester>)
        requires
            self.requester is Some,
        ensures
            *r == self.requester.unwrap(),
    {
        self.requester.as_ref().unwrap()
    }

    /// Update this outcome group.
    ///
    /// # Canvas API
    /// `PUT /api/v1/accounts/:account_id/outcome_groups/:id`
    /// `PUT /api/v1/courses/:course_id/outcome_groups/:id`
    pub fn update(&self, params: UpdateOutcomeGroupParams) -> (r: Result<Request>)
        requires
            self.requester is Some,
        ensures
            self.requester.unwrap().sends_scoped(
                r,
                Method::Put,
                self.context_path_view() + "/outcome_groups/"@ + dec(self.id as nat),
                PayloadView::Form(params.form_view("outcome_group"@)),
                Scope::none(),
            ),
    {
        let context_path_text = self.context_path_text();
        let mut endpoint = String::new();
        endpoint.append(context_path_text.as_str());
        endpoint.append("/outcome_groups/");
        push_u64(&mut endpoint, self.id);
        assert(endpoint@ =~= self.context_path_view() + "/outcome_groups/"@ + dec(self.id as nat));
        let form: Vec<(String, String)> = params.to_form("outcome_group");
        assert(pairs_view(form@) =~= params.form_view("outcome_group"@));
        scoped(self.req().put(endpoint.as_str(), form), Scope::empty())
    }

    /// Delete this outcome group.
    ///
    /// # Canvas API
    /// `DELETE /api/v1/accounts/:account_id/outcome_groups/:id`
    pub fn delete(&self) -> (r: Result<Request>)
        requires
            self.requester is Some,
        ensures
            self.requester.unwrap().sends_scoped(
                r,
                Method::Delete,
                self.context_path_view() + "/outcome_groups/"@ + dec(self.id as nat),
                PayloadView::Query(seq![]),
                Scope::none(),
            ),
    {
        let context_path_text = self.context_path_text();
        let mut endpoint = String::new();
        endpoint.append(context_path_text.as_str());
        endpoint.append("/outcome_groups/");
        push_u64(&mut endpoint, self.id);
        assert(endpoint@ =~= self.context_path_view() + "/outcome_groups/"@ + dec(self.id as nat));
        let form: Vec<(String, String)> = Vec::new();
        assert(pairs_view(form@) =~= seq![]);
        scoped(self.req().delete(endpoint.as_str(), form), Scope::empty())
    }

    /// Stream sub-groups of this outcome group.
    ///
    /// # Canvas API
    /// `GET /api/v1/accounts/:account_id/outcome_groups/:id/subgroups`
    pub fn get_subgroups(&self) -> (s: PageStream<OutcomeGroup>)
        requires
            self.requester is Some,
        ensures
            lists(s, *self.requester.unwrap(), self.requester.unwrap().base(), self.context_path_view() + "/outcome_groups/"@ + dec(self.id as nat) + "/subgroups"@, seq![], Scope::none()),
    {
        let context_path_text = self.context_path_text();
        let mut endpoint = String::new();
        endpoint.append(context_path_text.as_str());
        endpoint.append("/outcome_groups/");
        push_u64(&mut endpoint, self.id);
        endpoint.append("/subgroups");
        assert(endpoint@ =~= self.context_path_view() + "/outcome_groups/"@ + dec(self.id as nat) + "/subgroups"@);
        let form: Vec<(String, String)> = Vec::new();
        assert(pairs_view(form@) =~= seq![]);
        PageStream::new(share(self.req()), endpoint.as_str(), form).with_scope(Scope::empty())
    }

    /// Create a sub-group under this outcome group.
    ///
    /// # Canvas API
    /// `POST /api/v1/accounts/:account_id/outcome_groups/:id/subgroups`
    pub fn create_subgroup(&self, title: &str) -> (r: Result<Request>)
        requires
            self.requester is Some,
        ensures
            self.requester.unwrap().sends_scoped(
                r,
                Method::Post,
                self.context_path_view() + "/outcome_groups/"@ + dec(self.id as nat) + "/subgroups"@,
                PayloadView::Form(seq![("title"@, title@)]),
                Scope::none(),
            ),
    {
        let context_path_text = self.context_path_text();
        let mut endpoint = String::new();
        endpoint.append(context_path_text.as_str());
        endpoint.append("/outcome_groups/");
        push_u64(&mut endpoint, self.id);
        endpoint.append("/subgroups");
        assert(endpoint@ =~= self.context_path_view() + "/outcome_groups/"@ + dec(self.id as nat) + "/subgroups"@);
        let form: Vec<(String, String)> = vec![("title".to_owned(), title.to_owned())];
        assert(pairs_view(form@) =~= seq![("title"@, title@)]);
        scoped(self.req().post(endpoint.as_str(), form), Scope::empty())
    }

    /// Stream outcomes linked to this group.
    ///
    /// # Canvas API
    /// `GET /api/v1/accounts/:account_id/outcome_groups/:id/outcomes`
    pub fn get_linked_outcomes(&self) -> (s: PageStream<OutcomeLink>)
        requires
            self.requester is Some,
        ensures
            lists(s, *self.requester.unwrap(), self.requester.unwrap().base(), self.context_path_view() + "/outcome_groups/"@ + dec(self.id as nat) + "/outcomes"@, seq![], Scope::none()),
    {
        let context_path_text = self.context_path_text();
        let mut endpoint = String::new();
        endpoint.append(context_path_text.as_str());
        endpoint.append("/outcome_groups/");
        push_u64(&mut endpoint, self.id);
        endpoint.append("/outcomes");
        assert(endpoint@ =~= self.context_path_view() + "/outcome_groups/"@ + dec(self.id as nat) + "/outcomes"@);
        let form: Vec<(String, String)> = Vec::new();
        assert(pairs_view(form@) =~= seq![]);
        PageStream::new(share(self.req()), endpoint.as_str(), form).with_scope(Scope::empty())
    }

    /// Link an existing outcome into this group.
    ///
    /// # Canvas API
    /// `PUT /api/v1/accounts/:account_id/outcome_groups/:id/outcomes/:outcome_id`
    pub fn link_outcome(&self, outcome_id: u64) -> (r: Result<Request>)
        requires
            self.requester is Some,
        ensures
            self.requester.unwrap().sends_scoped(
                r,
                Method::Put,
                self.context_path_view() + "/outcome_groups/"@ + dec(self.id as nat) + "/outcomes/"@ + dec(outcome_id as nat),
                PayloadView::Form(seq![]),
                Scope::none(),
            ),
    {
        let context_path_text = self.context_path_text();
        let mut endpoint = String::new();
        endpoint.append(context_path_text.as_str());
        endpoint.append("/outcome_groups/");
        push_u64(&mut endpoint, self.id);
        endpoint.append("/outcomes/");
        push_u64(&mut endpoint, outcome_id);
        assert(endpoint@ =~= self.context_path_view() + "/outcome_groups/"@ + dec(self.id as nat) + "/outcomes/"@ + dec(outcome_id as nat));
        let form: Vec<(String, String)> = Vec::new();
        assert(pairs_view(form@) =~= seq![]);
        scoped(self.req().put(endpoint.as_str(), form), Scope::empty())
    }

    /// Unlink an outcome from this group.
    ///
    /// # Canvas API
    /// `DELETE /api/v1/accounts/:account_id/outcome_groups/:id/outcomes/:outcome_id`
    pub fn unlink_outcome(&self, outcome_id: u64) -> (r: Result<Request>)
        requires
            self.requester is Some,
        ensures
            self.requester.unwrap().sends_scoped(
                r,
                Method::Delete,
                self.context_path_view() + "/outcome_groups/"@ + dec(self.id as nat) + "/outcomes/"@ + dec(outcome_id as nat),
                PayloadView::Query(seq![]),
                Scope::none(),
            ),
    {
        let context_path_text = self.context_path_text();
        let mut endpoint = String::new();
        endpoint.append(context_path_text.as_str());
        endpoint.append("/outcome_groups/");
        push_u64(&mut endpoint, self.id);
        endpoint.append("/outcomes/");
        push_u64(&mut endpoint, outcome_id);
        assert(endpoint@ =~= self.context_path_view() + "/outcome_groups/"@ + dec(self.id as nat) + "/outcomes/"@ + dec(outcome_id as nat));
        let form: Vec<(String, String)> = Vec::new();
        assert(pairs_view(form@) =~= seq![]);
        scoped(self.req().delete(endpoint.as_str(), form), Scope::empty())
    }

    /// Import another outcome group into this group.
    ///
    /// # Canvas API
    /// `POST /api/v1/accounts/:account_id/outcome_groups/:id/import`
    /// `POST /api/v1/courses/:course_id/outcome_groups/:id/import`
    pub fn import_outcome_group(&self, source_group_id: u64) -> (r: Result<Request>)
        requires
            self.requester is Some,
        ensures
            self.requester.unwrap().sends_scoped(
                r,
                Method::Post,
                self.context_path_view() + "/outcome_groups/"@ + dec(self.id as nat) + "/import"@,
                PayloadView::Form(seq![("source_outcome_group_id"@, dec(source_group_id as nat))]),
                Scope::none(),
            ),
    {
        let context_path_text = self.context_path_text();
        let mut endpoint = String::new();
        endpoint.append(context_path_text.as_str());
        endpoint.append("/outcome_groups/");
        push_u64(&mut endpoint, self.id);
        endpoint.append("/import");
        assert(endpoint@ =~= self.context_path_view() + "/outcome_groups/"@ + dec(self.id as nat) + "/import"@);
        let form: Vec<(String, String)> = vec![("source_outcome_group_id".to_owned(), u64_to_text(source_group_id))];
        assert(pairs_view(form@) =~= seq![("source_outcome_group_id"@, dec(source_group_id as nat))]);
        scoped(self.req().post(endpoint.as_str(), form), Scope::empty())
    }
}

/// Parameters for updating an outcome group.
#[derive(Debug, Default)]
pub struct UpdateOutcomeGroupParams {
    pub title: Option<String>,
    pub description: Option<String>,
    pub vendor_guid: Option<String>,
    pub parent_outcome_group_id: Option<u64>,
}

impl UpdateOutcomeGroupParams {
    /// The parameters these settings give under `key`: `key[member]` for each
    /// member that is set, in the order of the member names.
    pub open spec fn form_view(self, key: Seq<char>) -> Seq<(Seq<char>, Seq<char>)> {
        field(key, "description"@, text_of(self.description))
        + field(key, "parent_outcome_group_id"@, u64_of(self.parent_outcome_group_id))
        + field(key, "title"@, text_of(self.title))
        + field(key, "vendor_guid"@, text_of(self.vendor_guid))
    }

    /// The parameters these settings give under `key` (what flattening
    /// `{key: settings}` gives).
    pub fn to_form(&self, key: &str) -> (r: Vec<(String, String)>)
        ensures
            pairs_view(r@) == self.form_view(key@),
    {
        let mut out: Vec<(String, String)> = Vec::new();
        add_text(&mut out, key, "description", &self.description);
        add_u64(&mut out, key, "parent_outcome_group_id", self.parent_outcome_group_id);
        add_text(&mut out, key, "title", &self.title);
        add_text(&mut out, key, "vendor_guid", &self.vendor_guid);
        assert(pairs_view(out@) =~= self.form_view(key@));
        out
    }

    /// Every member of these settings that is set is sent under `key[member]`,
    /// with its text (a boolean as `true`/`false`, a number in decimal).
    pub proof fn lemma_form_sends_members(self, key: Seq<char>)
        ensures
            self.description is Some ==> self.form_view(key).contains((member_key(key, "description"@), self.description.unwrap()@)),
            self.parent_outcome_group_id is Some ==> self.form_view(key).contains((member_key(key, "parent_outcome_group_id"@), dec(self.parent_outcome_group_id.unwrap() as nat))),
            self.title is Some ==> self.form_view(key).contains((member_key(key, "title"@), self.title.unwrap()@)),
            self.vendor_guid is Some ==> self.form_view(key).contains((member_key(key, "vendor_guid"@), self.vendor_guid.unwrap()@)),
    {
        let parts = seq![
            field(key, "description"@, text_of(self.description)),
            field(key, "parent_outcome_group_id"@, u64_of(self.parent_outcome_group_id)),
            field(key, "title"@, text_of(self.title)),
            field(key, "vendor_guid"@, text_of(self.vendor_guid)),
        ];
        assert(self.form_view(key) == concat_upto(parts, 4)) by {
            assert(concat_upto(parts, 0) == Seq::<(Seq<char>, Seq<char>)>::empty());
            assert(concat_upto(parts, 1) =~= parts[0]);
            assert(concat_upto(parts, 2) == concat_upto(parts, 1) + parts[1]);
            assert(concat_upto(parts, 3) == concat_upto(parts, 2) + parts[2]);
            assert(concat_upto(parts, 4) == concat_upto(parts, 3) + parts[3]);
        }
        assert(self.description is Some ==> self.form_view(key).contains((member_key(key, "description"@), self.description.unwrap()@))) by {
            if self.description is Some {
                assert(parts[0][0] == (member_key(key, "description"@), self.description.unwrap()@));
                lemma_part_in_concat(parts, 4, 0, (member_key(key, "description"@), self.description.unwrap()@));
            }
        }
        assert(self.parent_outcome_group_id is Some ==> self.form_view(key).contains((member_key(key, "parent_outcome_group_id"@), dec(self.parent_outcome_group_id.unwrap() as nat)))) by {
            if self.parent_outcome_group_id is Some {
                assert(parts[1][0] == (member_key(key, "parent_outcome_group_id"@), dec(self.parent_outcome_group_id.unwrap() as nat)));
                lemma_part_in_concat(parts, 4, 1, (member_key(key, "parent_outcome_group_id"@), dec(self.parent_outcome_group_id.unwrap() as nat)));
            }
        }
        assert(self.title is Some ==> self.form_view(key).contains((member_key(key, "title"@), self.title.unwrap()@))) by {
            if self.title is Some {
                assert(parts[2][0] == (member_key(key, "title"@), self.title.unwrap()@));
                lemma_part_in_concat(parts, 4, 2, (member_key(key, "title"@), self.title.unwrap()@));
            }
        }
        assert(self.vendor_guid is Some ==> self.form_view(key).contains((member_key(key, "vendor_guid"@), self.vendor_guid.unwrap()@))) by {
            if self.vendor_guid is Some {
                assert(parts[3][0] == (member_key(key, "vendor_guid"@), self.vendor_guid.unwrap()@));
                lemma_part_in_concat(parts, 4, 3, (member_key(key, "vendor_guid"@), self.vendor_guid.unwrap()@));
            }
        }
    }
}

/// An association between an outcome and an outcome group.
#[derive(Debug)]
pub struct OutcomeLink {
    pub context_id: Option<u64>,
    pub context_type: Option<String>,
    pub url: Option<String>,
    pub outcome_group: Option<JsonValue>,
    pub outcome: Option<JsonValue>,
    pub assessed: Option<bool>,
    pub can_unlink: Option<bool>,
    pub requester: Option<Arc<Requester>>,
}

impl OutcomeLink {
    /// Takes in this OutcomeLink as fetched: it keeps `requester` for its own calls.
    pub fn adopt(&mut self, requester: Arc<Requester>, scope: &Scope)
        ensures
            final(self).requester == Some(requester),
            final(self).context_id == old(self).context_id,
            final(self).context_type == old(self).context_type,
            final(self).url == old(self).url,
            final(self).outcome_group == old(self).outcome_group,
            final(self).outcome == old(self).outcome,
            final(self).assessed == old(self).assessed,
            final(self).can_unlink == old(self).can_unlink,
    {
        self.requester = Some(requester);
    }

    fn req(&self) -> (r: &Arc<Requester>)
        requires
            self.requester is Some,
        ensures
            *r == self.requester.unwrap(),
    {
        self.requester.as_ref().unwrap()
    }
}

/// An outcome import job.
#[derive(Debug)]
pub struct OutcomeImport {
    pub id: u64,
    pub account_id: Option<u64>,
    pub course_id: Option<u64>,
    pub workflow_state: Option<String>,
    pub data: Option<JsonValue>,
    /// A decimal, as the text `serde_json` prints for it (`10.0`, `2.5`).
    pub progress: Option<String>,
    pub requester: Option<Arc<Requester>>,
    pub context_path: Option<String>,
}

impl OutcomeImport {
    /// Takes in this OutcomeImport as fetched: it keeps `requester` for its own calls.
    pub fn adopt(&mut self, requester: Arc<Requester>, scope: &Scope)
        ensures
            final(self).requester == Some(requester),
            final(self).id == old(self).id,
            final(self).account_id == old(self).account_id,
            final(self).course_id == old(self).course_id,
            final(self).workflow_state == old(self).workflow_state,
            final(self).data == old(self).data,
            final(self).progress == old(self).progress,
            final(self).context_path == old(self).context_path,
    {
        self.requester = Some(requester);
    }

    fn req(&self) -> (r: &Arc<Requester>)
        requires
            self.requester is Some,
        ensures
            *r == self.requester.unwrap(),
    {
        self.requester.as_ref().unwrap()
    }

    /// Fetch the current progress/status of this outcome import.
    ///
    /// # Canvas API
    /// `GET /api/v1/:context/outcome_imports/:id`
    pub fn get_progress(&self) -> (r: Result<Request>)
        requires
            self.requester is Some,
            self.context_path is Some,
        ensures
            self.requester.unwrap().sends_scoped(
                r,
                Method::Get,
                (self.context_path.unwrap()@) + "/outcome_imports/"@ + dec(self.id as nat),
                PayloadView::Query(seq![]),
                Scope::none(),
            ),
    {
        let mut endpoint = String::new();
        endpoint.append(self.context_path.as_ref().unwrap().as_str());
        endpoint.append("/outcome_imports/");
        push_u64(&mut endpoint, self.id);
        assert(endpoint@ =~= (self.context_path.unwrap()@) + "/outcome_imports/"@ + dec(self.id as nat));
        let form: Vec<(String, String)> = Vec::new();
        assert(pairs_view(form@) =~= seq![]);
        scoped(self.req().get(endpoint.as_str(), form), Scope::empty())
    }
}

/// `courses/<id>` for a course, `accounts/<id>` for an account, `global` otherwise.
pub open spec fn context_path_of(context_type: Option<Seq<char>>, context_id: Option<u64>) -> Seq<char> {
    match (context_type, context_id) {
        (Some(t), Some(id)) => if t == "Course"@ {
            "courses/"@ + dec(id as nat)
        } else if t == "Account"@ {
            "accounts/"@ + dec(id as nat)
        } else {
            "global"@
        },
        _ => "global"@,
    }
}

fn context_path_text_of(context_type: Option<&String>, context_id: Option<u64>) -> (s: String)
    ensures
        s@ == context_path_of(
            match context_type {
                Some(t) => Some(t@),
                None => None,
            },
            context_id,
        ),
{
    match (context_type, context_id) {
        (Some(t), Some(id)) => {
            let course = "Course".to_owned();
            let account = "Account".to_owned();
            if *t == course {
                let mut s = "courses/".to_owned();
                push_u64(&mut s, id);
                s
            } else if *t == account {
                let mut s = "accounts/".to_owned();
                push_u64(&mut s, id);
                s
            } else {
                "global".to_owned()
            }
        },
        _ => "global".to_owned(),
    }
}

impl OutcomeGroup {
    /// The path of the group's context: `courses/<id>`, `accounts/<id>` (the id
    /// 0 when unknown), or `global`.
    pub open spec fn context_path_view(&self) -> Seq<char> {
        match self.context_type {
            Some(t) => context_path_of(Some(t@), Some(id_or_spec(self.context_id, 0))),
            None => "global"@,
        }
    }

    fn context_path_text(&self) -> (s: String)
        ensures
            s@ == self.context_path_view(),
    {
        match &self.context_type {
            Some(t) => context_path_text_of(Some(t), Some(id_or(self.context_id, 0))),
            None => "global".to_owned(),
        }
    }
}

impl OutcomeLink {
    /// The path of the context of the linked group, read from the link's
    /// `outcome_group` (its `context_type`, `global` by default, and its
    /// `context_id`).
    pub open spec fn outcome_group_context_path_view(&self) -> Seq<char> {
        match self.outcome_group {
            None => "global"@,
            Some(g) => context_path_of(
                match text_member_spec(g, "context_type"@) {
                    Some(t) => Some(t),
                    None => Some("global"@),
                },
                u64_member_spec(g, "context_id"@),
            ),
        }
    }

    fn outcome_group_context_path_text(&self) -> (s: String)
        ensures
            s@ == self.outcome_group_context_path_view(),
    {
        match &self.outcome_group {
            None => "global".to_owned(),
            Some(g) => {
                let id = u64_member(g, "context_id");
                match get(g, "context_type") {
                    Some(JsonValue::String(t)) => context_path_text_of(Some(t), id),
                    _ => {
                        let global = "global".to_owned();
                        context_path_text_of(Some(&global), id)
                    },
                }
            },
        }
    }
}

impl OutcomeGroup {
    /// Create a new outcome and link it into this group: `title`, then the
    /// given parameters as they are.
    ///
    /// # Canvas API
    /// `POST /api/v1/accounts/:account_id/outcome_groups/:id/outcomes`
    /// `POST /api/v1/courses/:course_id/outcome_groups/:id/outcomes`
    pub fn link_new(&self, title: &str, params: Vec<(String, String)>) -> (r: Result<Request>)
        requires
            self.requester is Some,
        ensures
            self.requester.unwrap().sends_scoped(
                r,
                Method::Post,
                self.context_path_view() + "/outcome_groups/"@ + dec(self.id as nat) + "/outcomes"@,
                PayloadView::Form(seq![("title"@, title@)] + pairs_view(params@)),
                Scope::none(),
            ),
    {
        let mut endpoint = self.context_path_text();
        endpoint.append("/outcome_groups/");
        push_u64(&mut endpoint, self.id);
        endpoint.append("/outcomes");
        let form = prepend_pair("title", title, params);
        scoped(self.req().post(endpoint.as_str(), form), Scope::empty())
    }
}

impl OutcomeLink {
    /// The id of the linked outcome: the `id` member of `outcome`.
    pub open spec fn outcome_id(&self) -> Option<u64> {
        match self.outcome {
            Some(o) => u64_member_spec(o, "id"@),
            None => None,
        }
    }

    /// The id of the linked group: the `id` member of `outcome_group`.
    pub open spec fn outcome_group_id(&self) -> Option<u64> {
        match self.outcome_group {
            Some(g) => u64_member_spec(g, "id"@),
            None => None,
        }
    }

    fn outcome_id_of(&self) -> (r: u64)
        requires
            self.outcome_id() is Some,
        ensures
            Some(r) == self.outcome_id(),
    {
        match &self.outcome {
            Some(o) => u64_member(o, "id").unwrap(),
            None => 0,
        }
    }

    fn outcome_group_id_of(&self) -> (r: u64)
        requires
            self.outcome_group_id() is Some,
        ensures
            Some(r) == self.outcome_group_id(),
    {
        match &self.outcome_group {
            Some(g) => u64_member(g, "id").unwrap(),
            None => 0,
        }
    }

    /// Fetch the linked Outcome object.
    ///
    /// # Canvas API
    /// `GET /api/v1/outcomes/:id`
    pub fn get_outcome(&self) -> (r: Result<Request>)
        requires
            self.requester is Some,
            self.outcome_id() is Some,
        ensures
            self.requester.unwrap().sends_scoped(
                r,
                Method::Get,
                "outcomes/"@ + dec(self.outcome_id().unwrap() as nat),
                PayloadView::Query(seq![]),
                Scope::none(),
            ),
    {
        let mut endpoint = "outcomes/".to_owned();
        push_u64(&mut endpoint, self.outcome_id_of());
        let form: Vec<(String, String)> = Vec::new();
        assert(pairs_view(form@) =~= seq![]);
        scoped(self.req().get(endpoint.as_str(), form), Scope::empty())
    }

    /// Fetch the OutcomeGroup that contains this link.
    ///
    /// # Canvas API
    /// `GET /api/v1/accounts/:account_id/outcome_groups/:id`
    /// `GET /api/v1/courses/:course_id/outcome_groups/:id`
    pub fn get_outcome_group(&self) -> (r: Result<Request>)
        requires
            self.requester is Some,
            self.outcome_group_id() is Some,
        ensures
            self.requester.unwrap().sends_scoped(
                r,
                Method::Get,
                self.outcome_group_context_path_view() + "/outcome_groups/"@ + dec(
                    self.outcome_group_id().unwrap() as nat,
                ),
                PayloadView::Query(seq![]),
                Scope::none(),
            ),
    {
        let mut endpoint = self.outcome_group_context_path_text();
        endpoint.append("/outcome_groups/");
        push_u64(&mut endpoint, self.outcome_group_id_of());
        let form: Vec<(String, String)> = Vec::new();
        assert(pairs_view(form@) =~= seq![]);
        scoped(self.req().get(endpoint.as_str(), form), Scope::empty())
    }
}

} // verus!
