use vstd::prelude::*;
use std::sync::Arc;
use crate::error::{bad_request, is_bad_request, Result};
use crate::http::{scoped, share, Method, PayloadView, Request, Requester, Scope};
use crate::json::{get, JsonValue};
use crate::pagination::{lists, PageStream};
use crate::params::{
    add_bool, add_text, add_u64, bool_of, concat_upto, field, id_params, id_params_view,
    lemma_part_in_concat, member_key, pairs_view, text_of, u64_of,
};
use crate::text::{bool_text, dec, push_u64, u64_to_text};
use crate::resources::collaboration::Collaboration;
use crate::resources::discussion_topic::DiscussionTopic;
use crate::resources::file::File;
use crate::resources::folder::Folder;
use crate::resources::page::Page;

verus! {

/// Parameters for creating or updating a Canvas group.
#[derive(Debug, Default)]
pub struct UpdateGroupParams {
    pub name: Option<String>,
    pub description: Option<String>,
    pub is_public: Option<bool>,
    pub join_level: Option<String>,
    pub avatar_id: Option<u64>,
    pub storage_quota_mb: Option<u64>,
}

impl UpdateGroupParams {
    /// The parameters these settings give under `key`: `key[member]` for each
    /// member that is set, in the order of the member names.
    pub open spec fn form_view(self, key: Seq<char>) -> Seq<(Seq<char>, Seq<char>)> {
        field(key, "avatar_id"@, u64_of(self.avatar_id))
        + field(key, "description"@, text_of(self.description))
        + field(key, "is_public"@, bool_of(self.is_public))
        + field(key, "join_level"@, text_of(self.join_level))
        + field(key, "name"@, text_of(self.name))
        + field(key, "storage_quota_mb"@, u64_of(self.storage_quota_mb))
    }

    /// The parameters these settings give under `key` (what flattening
    /// `{key: settings}` gives).
    pub fn to_form(&self, key: &str) -> (r: Vec<(String, String)>)
        ensures
            pairs_view(r@) == self.form_view(key@),
    {
        let mut out: Vec<(String, String)> = Vec::new();
        add_u64(&mut out, key, "avatar_id", self.avatar_id);
        add_text(&mut out, key, "description", &self.description);
        add_bool(&mut out, key, "is_public", self.is_public);
        add_text(&mut out, key, "join_level", &self.join_level);
        add_text(&mut out, key, "name", &self.name);
        add_u64(&mut out, key, "storage_quota_mb", self.storage_quota_mb);
        assert(pairs_view(out@) =~= self.form_view(key@));
        out
    }

    /// Every member of these settings that is set is sent under `key[member]`,
    /// with its text (a boolean as `true`/`false`, a number in decimal).
    pub proof fn lemma_form_sends_members(self, key: Seq<char>)
        ensures
            self.avatar_id is Some ==> self.form_view(key).contains((member_key(key, "avatar_id"@), dec(self.avatar_id.unwrap() as nat))),
            self.description is Some ==> self.form_view(key).contains((member_key(key, "description"@), self.description.unwrap()@)),
            self.is_public is Some ==> self.form_view(key).contains((member_key(key, "is_public"@), bool_text(self.is_public.unwrap()))),
            self.join_level is Some ==> self.form_view(key).contains((member_key(key, "join_level"@), self.join_level.unwrap()@)),
            self.name is Some ==> self.form_view(key).contains((member_key(key, "name"@), self.name.unwrap()@)),
            self.storage_quota_mb is Some ==> self.form_view(key).contains((member_key(key, "storage_quota_mb"@), dec(self.storage_quota_mb.unwrap() as nat))),
    {
        let parts = seq![
            field(key, "avatar_id"@, u64_of(self.avatar_id)),
            field(key, "description"@, text_of(self.description)),
            field(key, "is_public"@, bool_of(self.is_public)),
            field(key, "join_level"@, text_of(self.join_level)),
            field(key, "name"@, text_of(self.name)),
            field(key, "storage_quota_mb"@, u64_of(self.storage_quota_mb)),
        ];
        assert(self.form_view(key) == concat_upto(parts, 6)) by {
            assert(concat_upto(parts, 0) == Seq::<(Seq<char>, Seq<char>)>::empty());
            assert(concat_upto(parts, 1) =~= parts[0]);
            assert(concat_upto(parts, 2) == concat_upto(parts, 1) + parts[1]);
            assert(concat_upto(parts, 3) == concat_upto(parts, 2) + parts[2]);
            assert(concat_upto(parts, 4) == concat_upto(parts, 3) + parts[3]);
            assert(concat_upto(parts, 5) == concat_upto(parts, 4) + parts[4]);
            assert(concat_upto(parts, 6) == concat_upto(parts, 5) + parts[5]);
        }
        assert(self.avatar_id is Some ==> self.form_view(key).contains((member_key(key, "avatar_id"@), dec(self.avatar_id.unwrap() as nat)))) by {
            if self.avatar_id is Some {
                assert(parts[0][0] == (member_key(key, "avatar_id"@), dec(self.avatar_id.unwrap() as nat)));
                lemma_part_in_concat(parts, 6, 0, (member_key(key, "avatar_id"@), dec(self.avatar_id.unwrap() as nat)));
            }
        }
        assert(self.description is Some ==> self.form_view(key).contains((member_key(key, "description"@), self.description.unwrap()@))) by {
            if self.description is Some {
                assert(parts[1][0] == (member_key(key, "description"@), self.description.unwrap()@));
                lemma_part_in_concat(parts, 6, 1, (member_key(key, "description"@), self.description.unwrap()@));
            }
        }
        assert(self.is_public is Some ==> self.form_view(key).contains((member_key(key, "is_public"@), bool_text(self.is_public.unwrap())))) by {
            if self.is_public is Some {
                assert(parts[2][0] == (member_key(key, "is_public"@), bool_text(self.is_public.unwrap())));
                lemma_part_in_concat(parts, 6, 2, (member_key(key, "is_public"@), bool_text(self.is_public.unwrap())));
            }
        }
        assert(self.join_level is Some ==> self.form_view(key).contains((member_key(key, "join_level"@), self.join_level.unwrap()@))) by {
            if self.join_level is Some {
                assert(parts[3][0] == (member_key(key, "join_level"@), self.join_level.unwrap()@));
                lemma_part_in_concat(parts, 6, 3, (member_key(key, "join_level"@), self.join_level.unwrap()@));
            }
        }
        assert(self.name is Some ==> self.form_view(key).contains((member_key(key, "name"@), self.name.unwrap()@))) by {
            if self.name is Some {
                assert(parts[4][0] == (member_key(key, "name"@), self.name.unwrap()@));
                lemma_part_in_concat(parts, 6, 4, (member_key(key, "name"@), self.name.unwrap()@));
            }
        }
        assert(self.storage_quota_mb is Some ==> self.form_view(key).contains((member_key(key, "storage_quota_mb"@), dec(self.storage_quota_mb.unwrap() as nat)))) by {
            if self.storage_quota_mb is Some {
                assert(parts[5][0] == (member_key(key, "storage_quota_mb"@), dec(self.storage_quota_mb.unwrap() as nat)));
                lemma_part_in_concat(parts, 6, 5, (member_key(key, "storage_quota_mb"@), dec(self.storage_quota_mb.unwrap() as nat)));
            }
        }
    }
}

/// Parameters for updating a group membership.
#[derive(Debug, Default)]
pub struct UpdateMembershipParams {
    pub workflow_state: Option<String>,
    pub moderator: Option<bool>,
}

impl UpdateMembershipParams {
    /// The parameters these settings give under `key`: `key[member]` for each
    /// member that is set, in the order of the member names.
    pub open spec fn form_view(self, key: Seq<char>) -> Seq<(Seq<char>, Seq<char>)> {
        field(key, "moderator"@, bool_of(self.moderator))
        + field(key, "workflow_state"@, text_of(self.workflow_state))
    }

    /// The parameters these settings give under `key` (what flattening
    /// `{key: settings}` gives).
    pub fn to_form(&self, key: &str) -> (r: Vec<(String, String)>)
        ensures
            pairs_view(r@) == self.form_view(key@),
    {
        let mut out: Vec<(String, String)> = Vec::new();
        add_bool(&mut out, key, "moderator", self.moderator);
        add_text(&mut out, key, "workflow_state", &self.workflow_state);
        assert(pairs_view(out@) =~= self.form_view(key@));
        out
    }

    /// Every member of these settings that is set is sent under `key[member]`,
    /// with its text (a boolean as `true`/`false`, a number in decimal).
    pub proof fn lemma_form_sends_members(self, key: Seq<char>)
        ensures
            self.moderator is Some ==> self.form_view(key).contains((member_key(key, "moderator"@), bool_text(self.moderator.unwrap()))),
            self.workflow_state is Some ==> self.form_view(key).contains((member_key(key, "workflow_state"@), self.workflow_state.unwrap()@)),
    {
        let parts = seq![
            field(key, "moderator"@, bool_of(self.moderator)),
            field(key, "workflow_state"@, text_of(self.workflow_state)),
        ];
        assert(self.form_view(key) == concat_upto(parts, 2)) by {
            assert(concat_upto(parts, 0) == Seq::<(Seq<char>, Seq<char>)>::empty());
            assert(concat_upto(parts, 1) =~= parts[0]);
            assert(concat_upto(parts, 2) == concat_upto(parts, 1) + parts[1]);
        }
        assert(self.moderator is Some ==> self.form_view(key).contains((member_key(key, "moderator"@), bool_text(self.moderator.unwrap())))) by {
            if self.moderator is Some {
                assert(parts[0][0] == (member_key(key, "moderator"@), bool_text(self.moderator.unwrap())));
                lemma_part_in_concat(parts, 2, 0, (member_key(key, "moderator"@), bool_text(self.moderator.unwrap())));
            }
        }
        assert(self.workflow_state is Some ==> self.form_view(key).contains((member_key(key, "workflow_state"@), self.workflow_state.unwrap()@))) by {
            if self.workflow_state is Some {
                assert(parts[1][0] == (member_key(key, "workflow_state"@), self.workflow_state.unwrap()@));
                lemma_part_in_concat(parts, 2, 1, (member_key(key, "workflow_state"@), self.workflow_state.unwrap()@));
            }
        }
    }
}

/// Parameters for creating or updating a group category.
#[derive(Debug, Default)]
pub struct GroupCategoryParams {
    pub name: Option<String>,
    pub self_signup: Option<String>,
    pub auto_leader: Option<String>,
    pub group_limit: Option<u64>,
    pub create_group_count: Option<u64>,
}

impl GroupCategoryParams {
    /// The parameters these settings give under `key`: `key[member]` for each
    /// member that is set, in the order of the member names.
    pub open spec fn form_view(self, key: Seq<char>) -> Seq<(Seq<char>, Seq<char>)> {
        field(key, "auto_leader"@, text_of(self.auto_leader))
        + field(key, "create_group_count"@, u64_of(self.create_group_count))
        + field(key, "group_limit"@, u64_of(self.group_limit))
        + field(key, "name"@, text_of(self.name))
        + field(key, "self_signup"@, text_of(self.self_signup))
    }

    /// The parameters these settings give under `key` (what flattening
    /// `{key: settings}` gives).
    pub fn to_form(&self, key: &str) -> (r: Vec<(String, String)>)
        ensures
            pairs_view(r@) == self.form_view(key@),
    {
        let mut out: Vec<(String, String)> = Vec::new();
        add_text(&mut out, key, "auto_leader", &self.auto_leader);
        add_u64(&mut out, key, "create_group_count", self.create_group_count);
        add_u64(&mut out, key, "group_limit", self.group_limit);
        add_text(&mut out, key, "name", &self.name);
        add_text(&mut out, key, "self_signup", &self.self_signup);
        assert(pairs_view(out@) =~= self.form_view(key@));
        out
    }

    /// Every member of these settings that is set is sent under `key[member]`,
    /// with its text (a boolean as `true`/`false`, a number in decimal).
    pub proof fn lemma_form_sends_members(self, key: Seq<char>)
        ensures
            self.auto_leader is Some ==> self.form_view(key).contains((member_key(key, "auto_leader"@), self.auto_leader.unwrap()@)),
            self.create_group_count is Some ==> self.form_view(key).contains((member_key(key, "create_group_count"@), dec(self.create_group_count.unwrap() as nat))),
            self.group_limit is Some ==> self.form_view(key).contains((member_key(key, "group_limit"@), dec(self.group_limit.unwrap() as nat))),
            self.name is Some ==> self.form_view(key).contains((member_key(key, "name"@), self.name.unwrap()@)),
            self.self_signup is Some ==> self.form_view(key).contains((member_key(key, "self_signup"@), self.self_signup.unwrap()@)),
    {
        let parts = seq![
            field(key, "auto_leader"@, text_of(self.auto_leader)),
            field(key, "create_group_count"@, u64_of(self.create_group_count)),
            field(key, "group_limit"@, u64_of(self.group_limit)),
            field(key, "name"@, text_of(self.name)),
            field(key, "self_signup"@, text_of(self.self_signup)),
        ];
        assert(self.form_view(key) == concat_upto(parts, 5)) by {
            assert(concat_upto(parts, 0) == Seq::<(Seq<char>, Seq<char>)>::empty());
            assert(concat_upto(parts, 1) =~= parts[0]);
            assert(concat_upto(parts, 2) == concat_upto(parts, 1) + parts[1]);
            assert(concat_upto(parts, 3) == concat_upto(parts, 2) + parts[2]);
            assert(concat_upto(parts, 4) == concat_upto(parts, 3) + parts[3]);
            assert(concat_upto(parts, 5) == concat_upto(parts, 4) + parts[4]);
        }
        assert(self.auto_leader is Some ==> self.form_view(key).contains((member_key(key, "auto_leader"@), self.auto_leader.unwrap()@))) by {
            if self.auto_leader is Some {
                assert(parts[0][0] == (member_key(key, "auto_leader"@), self.auto_leader.unwrap()@));
                lemma_part_in_concat(parts, 5, 0, (member_key(key, "auto_leader"@), self.auto_leader.unwrap()@));
            }
        }
        assert(self.create_group_count is Some ==> self.form_view(key).contains((member_key(key, "create_group_count"@), dec(self.create_group_count.unwrap() as nat)))) by {
            if self.create_group_count is Some {
                assert(parts[1][0] == (member_key(key, "create_group_count"@), dec(self.create_group_count.unwrap() as nat)));
                lemma_part_in_concat(parts, 5, 1, (member_key(key, "create_group_count"@), dec(self.create_group_count.unwrap() as nat)));
            }
        }
        assert(self.group_limit is Some ==> self.form_view(key).contains((member_key(key, "group_limit"@), dec(self.group_limit.unwrap() as nat)))) by {
            if self.group_limit is Some {
                assert(parts[2][0] == (member_key(key, "group_limit"@), dec(self.group_limit.unwrap() as nat)));
                lemma_part_in_concat(parts, 5, 2, (member_key(key, "group_limit"@), dec(self.group_limit.unwrap() as nat)));
            }
        }
        assert(self.name is Some ==> self.form_view(key).contains((member_key(key, "name"@), self.name.unwrap()@))) by {
            if self.name is Some {
                assert(parts[3][0] == (member_key(key, "name"@), self.name.unwrap()@));
                lemma_part_in_concat(parts, 5, 3, (member_key(key, "name"@), self.name.unwrap()@));
            }
        }
        assert(self.self_signup is Some ==> self.form_view(key).contains((member_key(key, "self_signup"@), self.self_signup.unwrap()@))) by {
            if self.self_signup is Some {
                assert(parts[4][0] == (member_key(key, "self_signup"@), self.self_signup.unwrap()@));
                lemma_part_in_concat(parts, 5, 4, (member_key(key, "self_signup"@), self.self_signup.unwrap()@));
            }
        }
    }
}

/// A Canvas group within a course or account.
#[derive(Debug)]
pub struct Group {
    pub id: u64,
    pub name: Option<String>,
    pub description: Option<String>,
    pub is_public: Option<bool>,
    pub followed_by_user: Option<bool>,
    pub join_level: Option<String>,
    pub members_count: Option<u64>,
    pub avatar_url: Option<String>,
    pub course_id: Option<u64>,
    pub role: Option<String>,
    pub group_category_id: Option<u64>,
    pub sis_group_id: Option<String>,
    pub sis_import_id: Option<u64>,
    pub storage_quota_mb: Option<u64>,
    pub permissions: Option<JsonValue>,
    pub requester: Option<Arc<Requester>>,
}

impl Group {
    /// Takes in this Group as fetched: it keeps `requester` for its own calls.
    pub fn adopt(&mut self, requester: Arc<Requester>, scope: &Scope)
        ensures
            final(self).requester == Some(requester),
            final(self).id == old(self).id,
            final(self).name == old(self).name,
            final(self).description == old(self).description,
            final(self).is_public == old(self).is_public,
            final(self).followed_by_user == old(self).followed_by_user,
            final(self).join_level == old(self).join_level,
            final(self).members_count == old(self).members_count,
            final(self).avatar_url == old(self).avatar_url,
            final(self).course_id == old(self).course_id,
            final(self).role == old(self).role,
            final(self).group_category_id == old(self).group_category_id,
            final(self).sis_group_id == old(self).sis_group_id,
            final(self).sis_import_id == old(self).sis_import_id,
            final(self).storage_quota_mb == old(self).storage_quota_mb,
            final(self).permissions == old(self).permissions,
    {
        self.requester = Some(requester);
    }

    fn req(&self) -> (r: &Arc<Requester>)
        requires
            self.requester is Some,
        ensures
            *r == self.requester.unwrap(),
    {
        self.requester.as_ref().unwrap()
    }

    /// Edit this group.
    ///
    /// # Canvas API
    /// `PUT /api/v1/groups/:id`
    pub fn edit(&self, params: UpdateGroupParams) -> (r: Result<Request>)
        requires
            self.requester is Some,
        ensures
            self.requester.unwrap().sends_scoped(
                r,
                Method::Put,
                "groups/"@ + dec(self.id as nat),
                PayloadView::Form(params.form_view("group"@)),
                Scope::none(),
            ),
    {
        let mut endpoint = String::new();
        endpoint.append("groups/");
        push_u64(&mut endpoint, self.id);
        assert(endpoint@ =~= "groups/"@ + dec(self.id as nat));
        let form: Vec<(String, String)> = params.to_form("group");
        assert(pairs_view(form@) =~= params.form_view("group"@));
        scoped(self.req().put(endpoint.as_str(), form), Scope::empty())
    }

    /// Delete this group.
    ///
    /// # Canvas API
    /// `DELETE /api/v1/groups/:id`
    pub fn delete(&self) -> (r: Result<Request>)
        requires
            self.requester is Some,
        ensures
            self.requester.unwrap().sends_scoped(
                r,
                Method::Delete,
                "groups/"@ + dec(self.id as nat),
                PayloadView::Query(seq![]),
                Scope::none(),
            ),
    {
        let mut endpoint = String::new();
        endpoint.append("groups/");
        push_u64(&mut endpoint, self.id);
        assert(endpoint@ =~= "groups/"@ + dec(self.id as nat));
        let form: Vec<(String, String)> = Vec::new();
        assert(pairs_view(form@) =~= seq![]);
        scoped(self.req().delete(endpoint.as_str(), form), Scope::empty())
    }

    /// Stream all users in this group.
    ///
    /// # Canvas API
    /// `GET /api/v1/groups/:id/users`
    pub fn get_users(&self) -> (s: PageStream<JsonValue>)
        requires
            self.requester is Some,
        ensures
            lists(s, *self.requester.unwrap(), self.requester.unwrap().base(), "groups/"@ + dec(self.id as nat) + "/users"@, seq![], Scope::none()),
    {
        let mut endpoint = String::new();
        endpoint.append("groups/");
        push_u64(&mut endpoint, self.id);
        endpoint.append("/users");
        assert(endpoint@ =~= "groups/"@ + dec(self.id as nat) + "/users"@);
        let form: Vec<(String, String)> = Vec::new();
        assert(pairs_view(form@) =~= seq![]);
        PageStream::new(share(self.req()), endpoint.as_str(), form).with_scope(Scope::empty())
    }

    /// Stream all memberships in this group.
    ///
    /// # Canvas API
    /// `GET /api/v1/groups/:id/memberships`
    pub fn get_memberships(&self) -> (s: PageStream<GroupMembership>)
        requires
            self.requester is Some,
        ensures
            lists(s, *self.requester.unwrap(), self.requester.unwrap().base(), "groups/"@ + dec(self.id as nat) + "/memberships"@, seq![], Scope { group_id: Some(Some(self.id)), ..Scope::none() }),
    {
        let mut endpoint = String::new();
        endpoint.append("groups/");
        push_u64(&mut endpoint, self.id);
        endpoint.append("/memberships");
        assert(endpoint@ =~= "groups/"@ + dec(self.id as nat) + "/memberships"@);
        let form: Vec<(String, String)> = Vec::new();
        assert(pairs_view(form@) =~= seq![]);
        PageStream::new(share(self.req()), endpoint.as_str(), form).with_scope(Scope { group_id: Some(Some(self.id)), ..Scope::empty() })
    }

    /// Create a membership for a user in this group.
    ///
    /// # Canvas API
    /// `POST /api/v1/groups/:id/memberships`
    pub fn create_membership(&self, user_id: u64) -> (r: Result<Request>)
        requires
            self.requester is Some,
        ensures
            self.requester.unwrap().sends_scoped(
                r,
                Method::Post,
                "groups/"@ + dec(self.id as nat) + "/memberships"@,
                PayloadView::Form(seq![("user_id"@, dec(user_id as nat))]),
                Scope { group_id: Some(Some(self.id)), ..Scope::none() },
            ),
    {
        let mut endpoint = String::new();
        endpoint.append("groups/");
        push_u64(&mut endpoint, self.id);
        endpoint.append("/memberships");
        assert(endpoint@ =~= "groups/"@ + dec(self.id as nat) + "/memberships"@);
        let form: Vec<(String, String)> = vec![("user_id".to_owned(), u64_to_text(user_id))];
        assert(pairs_view(form@) =~= seq![("user_id"@, dec(user_id as nat))]);
        scoped(self.req().post(endpoint.as_str(), form), Scope { group_id: Some(Some(self.id)), ..Scope::empty() })
    }

    /// Get the membership for a specific user.
    ///
    /// # Canvas API
    /// `GET /api/v1/groups/:id/users/:user_id/membership`
    pub fn get_membership(&self, user_id: u64) -> (r: Result<Request>)
        requires
            self.requester is Some,
        ensures
            self.requester.unwrap().sends_scoped(
                r,
                Method::Get,
                "groups/"@ + dec(self.id as nat) + "/users/"@ + dec(user_id as nat) + "/membership"@,
                PayloadView::Query(seq![]),
                Scope { group_id: Some(Some(self.id)), ..Scope::none() },
            ),
    {
        let mut endpoint = String::new();
        endpoint.append("groups/");
        push_u64(&mut endpoint, self.id);
        endpoint.append("/users/");
        push_u64(&mut endpoint, user_id);
        endpoint.append("/membership");
        assert(endpoint@ =~= "groups/"@ + dec(self.id as nat) + "/users/"@ + dec(user_id as nat) + "/membership"@);
        let form: Vec<(String, String)> = Vec::new();
        assert(pairs_view(form@) =~= seq![]);
        scoped(self.req().get(endpoint.as_str(), form), Scope { group_id: Some(Some(self.id)), ..Scope::empty() })
    }

    /// Update a membership.
    ///
    /// # Canvas API
    /// `PUT /api/v1/groups/:id/memberships/:membership_id`
    pub fn update_membership(&self, membership_id: u64, params: UpdateMembershipParams) -> (r: Result<Request>)
        requires
            self.requester is Some,
        ensures
            self.requester.unwrap().sends_scoped(
                r,
                Method::Put,
                "groups/"@ + dec(self.id as nat) + "/memberships/"@ + dec(membership_id as nat),
                PayloadView::Form(params.form_view("membership"@)),
                Scope { group_id: Some(Some(self.id)), ..Scope::none() },
            ),
    {
        let mut endpoint = String::new();
        endpoint.append("groups/");
        push_u64(&mut endpoint, self.id);
        endpoint.append("/memberships/");
        push_u64(&mut endpoint, membership_id);
        assert(endpoint@ =~= "groups/"@ + dec(self.id as nat) + "/memberships/"@ + dec(membership_id as nat));
        let form: Vec<(String, String)> = params.to_form("membership");
        assert(pairs_view(form@) =~= params.form_view("membership"@));
        scoped(self.req().put(endpoint.as_str(), form), Scope { group_id: Some(Some(self.id)), ..Scope::empty() })
    }

    /// Remove a user from this group.
    ///
    /// # Canvas API
    /// `DELETE /api/v1/groups/:id/users/:user_id`
    pub fn remove_user(&self, user_id: u64) -> (r: Result<Request>)
        requires
            self.requester is Some,
        ensures
            self.requester.unwrap().sends_scoped(
                r,
                Method::Delete,
                "groups/"@ + dec(self.id as nat) + "/users/"@ + dec(user_id as nat),
                PayloadView::Query(seq![]),
                Scope::none(),
            ),
    {
        let mut endpoint = String::new();
        endpoint.append("groups/");
        push_u64(&mut endpoint, self.id);
        endpoint.append("/users/");
        push_u64(&mut endpoint, user_id);
        assert(endpoint@ =~= "groups/"@ + dec(self.id as nat) + "/users/"@ + dec(user_id as nat));
        let form: Vec<(String, String)> = Vec::new();
        assert(pairs_view(form@) =~= seq![]);
        scoped(self.req().delete(endpoint.as_str(), form), Scope::empty())
    }

    /// Invite users to this group.
    ///
    /// # Canvas API
    /// `POST /api/v1/groups/:id/invite`
    pub fn invite(&self, invitee_ids: &[u64]) -> (r: Result<Request>)
        requires
            self.requester is Some,
        ensures
            self.requester.unwrap().sends_scoped(
                r,
                Method::Post,
                "groups/"@ + dec(self.id as nat) + "/invite"@,
                PayloadView::Form(id_params_view("invitees[]"@, invitee_ids@)),
                Scope { group_id: Some(Some(self.id)), ..Scope::none() },
            ),
    {
        let mut endpoint = String::new();
        endpoint.append("groups/");
        push_u64(&mut endpoint, self.id);
        endpoint.append("/invite");
        assert(endpoint@ =~= "groups/"@ + dec(self.id as nat) + "/invite"@);
        let form: Vec<(String, String)> = id_params("invitees[]", invitee_ids);
        assert(pairs_view(form@) =~= id_params_view("invitees[]"@, invitee_ids@));
        scoped(self.req().post(endpoint.as_str(), form), Scope { group_id: Some(Some(self.id)), ..Scope::empty() })
    }

    /// Stream all files in this group.
    ///
    /// # Canvas API
    /// `GET /api/v1/groups/:id/files`
    pub fn get_files(&self) -> (s: PageStream<File>)
        requires
            self.requester is Some,
        ensures
            lists(s, *self.requester.unwrap(), self.requester.unwrap().base(), "groups/"@ + dec(self.id as nat) + "/files"@, seq![], Scope::none()),
    {
        let mut endpoint = String::new();
        endpoint.append("groups/");
        push_u64(&mut endpoint, self.id);
        endpoint.append("/files");
        assert(endpoint@ =~= "groups/"@ + dec(self.id as nat) + "/files"@);
        let form: Vec<(String, String)> = Vec::new();
        assert(pairs_view(form@) =~= seq![]);
        PageStream::new(share(self.req()), endpoint.as_str(), form).with_scope(Scope::empty())
    }

    /// Fetch a single file.
    ///
    /// # Canvas API
    /// `GET /api/v1/groups/:id/files/:file_id`
    pub fn get_file(&self, file_id: u64) -> (r: Result<Request>)
        requires
            self.requester is Some,
        ensures
            self.requester.unwrap().sends_scoped(
                r,
                Method::Get,
                "groups/"@ + dec(self.id as nat) + "/files/"@ + dec(file_id as nat),
                PayloadView::Query(seq![]),
                Scope::none(),
            ),
    {
        let mut endpoint = String::new();
        endpoint.append("groups/");
        push_u64(&mut endpoint, self.id);
        endpoint.append("/files/");
        push_u64(&mut endpoint, file_id);
        assert(endpoint@ =~= "groups/"@ + dec(self.id as nat) + "/files/"@ + dec(file_id as nat));
        let form: Vec<(String, String)> = Vec::new();
        assert(pairs_view(form@) =~= seq![]);
        scoped(self.req().get(endpoint.as_str(), form), Scope::empty())
    }

    /// Stream all folders in this group.
    ///
    /// # Canvas API
    /// `GET /api/v1/groups/:id/folders`
    pub fn get_folders(&self) -> (s: PageStream<Folder>)
        requires
            self.requester is Some,
        ensures
            lists(s, *self.requester.unwrap(), self.requester.unwrap().base(), "groups/"@ + dec(self.id as nat) + "/folders"@, seq![], Scope::none()),
    {
        let mut endpoint = String::new();
        endpoint.append("groups/");
        push_u64(&mut endpoint, self.id);
        endpoint.append("/folders");
        assert(endpoint@ =~= "groups/"@ + dec(self.id as nat) + "/folders"@);
        let form: Vec<(String, String)> = Vec::new();
        assert(pairs_view(form@) =~= seq![]);
        PageStream::new(share(self.req()), endpoint.as_str(), form).with_scope(Scope::empty())
    }

    /// Fetch a single folder.
    ///
    /// # Canvas API
    /// `GET /api/v1/groups/:id/folders/:folder_id`
    pub fn get_folder(&self, folder_id: u64) -> (r: Result<Request>)
        requires
            self.requester is Some,
        ensures
            self.requester.unwrap().sends_scoped(
                r,
                Method::Get,
                "groups/"@ + dec(self.id as nat) + "/folders/"@ + dec(folder_id as nat),
                PayloadView::Query(seq![]),
                Scope::none(),
            ),
    {
        let mut endpoint = String::new();
        endpoint.append("groups/");
        push_u64(&mut endpoint, self.id);
        endpoint.append("/folders/");
        push_u64(&mut endpoint, folder_id);
        assert(endpoint@ =~= "groups/"@ + dec(self.id as nat) + "/folders/"@ + dec(folder_id as nat));
        let form: Vec<(String, String)> = Vec::new();
        assert(pairs_view(form@) =~= seq![]);
        scoped(self.req().get(endpoint.as_str(), form), Scope::empty())
    }

    /// Create a folder in this group.
    ///
    /// # Canvas API
    /// `POST /api/v1/groups/:id/folders`
    pub fn create_folder(&self, name: &str) -> (r: Result<Request>)
        requires
            self.requester is Some,
        ensures
            self.requester.unwrap().sends_scoped(
                r,
                Method::Post,
                "groups/"@ + dec(self.id as nat) + "/folders"@,
                PayloadView::Form(seq![("name"@, name@)]),
                Scope::none(),
            ),
    {
        let mut endpoint = String::new();
        endpoint.append("groups/");
        push_u64(&mut endpoint, self.id);
        endpoint.append("/folders");
        assert(endpoint@ =~= "groups/"@ + dec(self.id as nat) + "/folders"@);
        let form: Vec<(String, String)> = vec![("name".to_owned(), name.to_owned())];
        assert(pairs_view(form@) =~= seq![("name"@, name@)]);
        scoped(self.req().post(endpoint.as_str(), form), Scope::empty())
    }

    /// Stream all pages in this group.
    ///
    /// # Canvas API
    /// `GET /api/v1/groups/:id/pages`
    pub fn get_pages(&self) -> (s: PageStream<Page>)
        requires
            self.requester is Some,
        ensures
            lists(s, *self.requester.unwrap(), self.requester.unwrap().base(), "groups/"@ + dec(self.id as nat) + "/pages"@, seq![], Scope { group_id: Some(Some(self.id)), ..Scope::none() }),
    {
        let mut endpoint = String::new();
        endpoint.append("groups/");
        push_u64(&mut endpoint, self.id);
        endpoint.append("/pages");
        assert(endpoint@ =~= "groups/"@ + dec(self.id as nat) + "/pages"@);
        let form: Vec<(String, String)> = Vec::new();
        assert(pairs_view(form@) =~= seq![]);
        PageStream::new(share(self.req()), endpoint.as_str(), form).with_scope(Scope { group_id: Some(Some(self.id)), ..Scope::empty() })
    }

    /// Fetch a single page by URL slug.
    ///
    /// # Canvas API
    /// `GET /api/v1/groups/:id/pages/:url`
    pub fn get_page(&self, url_slug: &str) -> (r: Result<Request>)
        requires
            self.requester is Some,
        ensures
            self.requester.unwrap().sends_scoped(
                r,
                Method::Get,
                "groups/"@ + dec(self.id as nat) + "/pages/"@ + url_slug@,
                PayloadView::Query(seq![]),
                Scope { group_id: Some(Some(self.id)), ..Scope::none() },
            ),
    {
        let mut endpoint = String::new();
        endpoint.append("groups/");
        push_u64(&mut endpoint, self.id);
        endpoint.append("/pages/");
        endpoint.append(url_slug);
        assert(endpoint@ =~= "groups/"@ + dec(self.id as nat) + "/pages/"@ + url_slug@);
        let form: Vec<(String, String)> = Vec::new();
        assert(pairs_view(form@) =~= seq![]);
        scoped(self.req().get(endpoint.as_str(), form), Scope { group_id: Some(Some(self.id)), ..Scope::empty() })
    }

    /// Stream all discussion topics in this group.
    ///
    /// # Canvas API
    /// `GET /api/v1/groups/:id/discussion_topics`
    pub fn get_discussion_topics(&self) -> (s: PageStream<DiscussionTopic>)
        requires
            self.requester is Some,
        ensures
            lists(s, *self.requester.unwrap(), self.requester.unwrap().base(), "groups/"@ + dec(self.id as nat) + "/discussion_topics"@, seq![], Scope { group_id: Some(Some(self.id)), ..Scope::none() }),
    {
        let mut endpoint = String::new();
        endpoint.append("groups/");
        push_u64(&mut endpoint, self.id);
        endpoint.append("/discussion_topics");
        assert(endpoint@ =~= "groups/"@ + dec(self.id as nat) + "/discussion_topics"@);
        let form: Vec<(String, String)> = Vec::new();
        assert(pairs_view(form@) =~= seq![]);
        PageStream::new(share(self.req()), endpoint.as_str(), form).with_scope(Scope { group_id: Some(Some(self.id)), ..Scope::empty() })
    }

    /// Fetch a single discussion topic.
    ///
    /// # Canvas API
    /// `GET /api/v1/groups/:id/discussion_topics/:topic_id`
    pub fn get_discussion_topic(&self, topic_id: u64) -> (r: Result<Request>)
        requires
            self.requester is Some,
        ensures
            self.requester.unwrap().sends_scoped(
                r,
                Method::Get,
                "groups/"@ + dec(self.id as nat) + "/discussion_topics/"@ + dec(topic_id as nat),
                PayloadView::Query(seq![]),
                Scope { group_id: Some(Some(self.id)), ..Scope::none() },
            ),
    {
        let mut endpoint = String::new();
        endpoint.append("groups/");
        push_u64(&mut endpoint, self.id);
        endpoint.append("/discussion_topics/");
        push_u64(&mut endpoint, topic_id);
        assert(endpoint@ =~= "groups/"@ + dec(self.id as nat) + "/discussion_topics/"@ + dec(topic_id as nat));
        let form: Vec<(String, String)> = Vec::new();
        assert(pairs_view(form@) =~= seq![]);
        scoped(self.req().get(endpoint.as_str(), form), Scope { group_id: Some(Some(self.id)), ..Scope::empty() })
    }

    /// Create a new page in this group.
    ///
    /// # Canvas API
    /// `POST /api/v1/groups/:id/pages`
    pub fn create_page(&self, params: Vec<(String, String)>) -> (r: Result<Request>)
        requires
            self.requester is Some,
        ensures
            self.requester.unwrap().sends_scoped(
                r,
                Method::Post,
                "groups/"@ + dec(self.id as nat) + "/pages"@,
                PayloadView::Form(pairs_view(params@)),
                Scope { group_id: Some(Some(self.id)), ..Scope::none() },
            ),
    {
        let mut endpoint = String::new();
        endpoint.append("groups/");
        push_u64(&mut endpoint, self.id);
        endpoint.append("/pages");
        assert(endpoint@ =~= "groups/"@ + dec(self.id as nat) + "/pages"@);
        let form: Vec<(String, String)> = params;
        assert(pairs_view(form@) =~= pairs_view(params@));
        scoped(self.req().post(endpoint.as_str(), form), Scope { group_id: Some(Some(self.id)), ..Scope::empty() })
    }

    /// Create a new discussion topic in this group.
    ///
    /// # Canvas API
    /// `POST /api/v1/groups/:id/discussion_topics`
    pub fn create_discussion_topic(&self, params: Vec<(String, String)>) -> (r: Result<Request>)
        requires
            self.requester is Some,
        ensures
            self.requester.unwrap().sends_scoped(
                r,
                Method::Post,
                "groups/"@ + dec(self.id as nat) + "/discussion_topics"@,
                PayloadView::Form(pairs_view(params@)),
                Scope { group_id: Some(Some(self.id)), ..Scope::none() },
            ),
    {
        let mut endpoint = String::new();
        endpoint.append("groups/");
        push_u64(&mut endpoint, self.id);
        endpoint.append("/discussion_topics");
        assert(endpoint@ =~= "groups/"@ + dec(self.id as nat) + "/discussion_topics"@);
        let form: Vec<(String, String)> = params;
        assert(pairs_view(form@) =~= pairs_view(params@));
        scoped(self.req().post(endpoint.as_str(), form), Scope { group_id: Some(Some(self.id)), ..Scope::empty() })
    }

    /// Stream all tabs for this group.
    ///
    /// # Canvas API
    /// `GET /api/v1/groups/:id/tabs`
    pub fn get_tabs(&self) -> (s: PageStream<JsonValue>)
        requires
            self.requester is Some,
        ensures
            lists(s, *self.requester.unwrap(), self.requester.unwrap().base(), "groups/"@ + dec(self.id as nat) + "/tabs"@, seq![], Scope::none()),
    {
        let mut endpoint = String::new();
        endpoint.append("groups/");
        push_u64(&mut endpoint, self.id);
        endpoint.append("/tabs");
        assert(endpoint@ =~= "groups/"@ + dec(self.id as nat) + "/tabs"@);
        let form: Vec<(String, String)> = Vec::new();
        assert(pairs_view(form@) =~= seq![]);
        PageStream::new(share(self.req()), endpoint.as_str(), form).with_scope(Scope::empty())
    }

    /// Stream all content migrations for this group.
    ///
    /// # Canvas API
    /// `GET /api/v1/groups/:id/content_migrations`
    pub fn get_content_migrations(&self) -> (s: PageStream<JsonValue>)
        requires
            self.requester is Some,
        ensures
            lists(s, *self.requester.unwrap(), self.requester.unwrap().base(), "groups/"@ + dec(self.id as nat) + "/content_migrations"@, seq![], Scope::none()),
    {
        let mut endpoint = String::new();
        endpoint.append("groups/");
        push_u64(&mut endpoint, self.id);
        endpoint.append("/content_migrations");
        assert(endpoint@ =~= "groups/"@ + dec(self.id as nat) + "/content_migrations"@);
        let form: Vec<(String, String)> = Vec::new();
        assert(pairs_view(form@) =~= seq![]);
        PageStream::new(share(self.req()), endpoint.as_str(), form).with_scope(Scope::empty())
    }

    /// Stream all content exports for this group.
    ///
    /// # Canvas API
    /// `GET /api/v1/groups/:id/content_exports`
    pub fn get_content_exports(&self) -> (s: PageStream<JsonValue>)
        requires
            self.requester is Some,
        ensures
            lists(s, *self.requester.unwrap(), self.requester.unwrap().base(), "groups/"@ + dec(self.id as nat) + "/content_exports"@, seq![], Scope::none()),
    {
        let mut endpoint = String::new();
        endpoint.append("groups/");
        push_u64(&mut endpoint, self.id);
        endpoint.append("/content_exports");
        assert(endpoint@ =~= "groups/"@ + dec(self.id as nat) + "/content_exports"@);
        let form: Vec<(String, String)> = Vec::new();
        assert(pairs_view(form@) =~= seq![]);
        PageStream::new(share(self.req()), endpoint.as_str(), form).with_scope(Scope::empty())
    }

    /// Preview processed HTML content in this group's context.
    ///
    /// # Canvas API
    /// `POST /api/v1/groups/:id/preview_html`
    pub fn preview_html(&self, html: &str) -> (r: Result<Request>)
        requires
            self.requester is Some,
        ensures
            self.requester.unwrap().sends_scoped(
                r,
                Method::Post,
                "groups/"@ + dec(self.id as nat) + "/preview_html"@,
                PayloadView::Form(seq![("html"@, html@)]),
                Scope::none(),
            ),
    {
        let mut endpoint = String::new();
        endpoint.append("groups/");
        push_u64(&mut endpoint, self.id);
        endpoint.append("/preview_html");
        assert(endpoint@ =~= "groups/"@ + dec(self.id as nat) + "/preview_html"@);
        let form: Vec<(String, String)> = vec![("html".to_owned(), html.to_owned())];
        assert(pairs_view(form@) =~= seq![("html"@, html@)]);
        scoped(self.req().post(endpoint.as_str(), form), Scope::empty())
    }

    /// Stream all collaborations in this group.
    ///
    /// # Canvas API
    /// `GET /api/v1/groups/:id/collaborations`
    pub fn get_collaborations(&self) -> (s: PageStream<Collaboration>)
        requires
            self.requester is Some,
        ensures
            lists(s, *self.requester.unwrap(), self.requester.unwrap().base(), "groups/"@ + dec(self.id as nat) + "/collaborations"@, seq![], Scope::none()),
    {
        let mut endpoint = String::new();
        endpoint.append("groups/");
        push_u64(&mut endpoint, self.id);
        endpoint.append("/collaborations");
        assert(endpoint@ =~= "groups/"@ + dec(self.id as nat) + "/collaborations"@);
        let form: Vec<(String, String)> = Vec::new();
        assert(pairs_view(form@) =~= seq![]);
        PageStream::new(share(self.req()), endpoint.as_str(), form).with_scope(Scope::empty())
    }
}

/// Membership of a user in a Canvas group.
#[derive(Debug)]
pub struct GroupMembership {
    pub id: u64,
    pub group_id: Option<u64>,
    pub user_id: Option<u64>,
    pub workflow_state: Option<String>,
    pub moderator: Option<bool>,
    pub just_created: Option<bool>,
    pub requester: Option<Arc<Requester>>,
}

impl GroupMembership {
    /// Takes in this GroupMembership as fetched: it keeps `requester` for its own calls,
    /// and takes `group_id` from the scope where the scope sets it.
    pub fn adopt(&mut self, requester: Arc<Requester>, scope: &Scope)
        ensures
            final(self).requester == Some(requester),
            final(self).group_id == (match scope.group_id {
                Some(v) => v,
                None => old(self).group_id,
            }),
            final(self).id == old(self).id,
            final(self).user_id == old(self).user_id,
            final(self).workflow_state == old(self).workflow_state,
            final(self).moderator == old(self).moderator,
            final(self).just_created == old(self).just_created,
    {
        self.requester = Some(requester);
        if let Some(v) = scope.group_id {
            self.group_id = v;
        }
    }

    fn req(&self) -> (r: &Arc<Requester>)
        requires
            self.requester is Some,
        ensures
            *r == self.requester.unwrap(),
    {
        self.requester.as_ref().unwrap()
    }

    /// Update this membership (change moderator status, etc).
    ///
    /// # Canvas API
    /// `PUT /api/v1/groups/:group_id/memberships/:id`
    pub fn update(&self, params: UpdateMembershipParams) -> (r: Result<Request>)
        requires
            !(self.group_id is None) ==> self.requester is Some,
        ensures
            (self.group_id is None) ==> (r matches Err(e) && is_bad_request(e, "GroupMembership has no group_id"@)),
            !(self.group_id is None) ==> self.requester.unwrap().sends_scoped(
                r,
                Method::Put,
                "groups/"@ + dec(self.group_id.unwrap() as nat) + "/memberships/"@ + dec(self.id as nat),
                PayloadView::Form(params.form_view("membership"@)),
                Scope { group_id: Some(self.group_id), ..Scope::none() },
            ),
    {
        if self.group_id.is_none() {
            return Err(bad_request("GroupMembership has no group_id"));
        }
        let mut endpoint = String::new();
        endpoint.append("groups/");
        push_u64(&mut endpoint, self.group_id.unwrap());
        endpoint.append("/memberships/");
        push_u64(&mut endpoint, self.id);
        assert(endpoint@ =~= "groups/"@ + dec(self.group_id.unwrap() as nat) + "/memberships/"@ + dec(self.id as nat));
        let form: Vec<(String, String)> = params.to_form("membership");
        assert(pairs_view(form@) =~= params.form_view("membership"@));
        scoped(self.req().put(endpoint.as_str(), form), Scope { group_id: Some(self.group_id), ..Scope::empty() })
    }

    /// Remove this membership.
    ///
    /// # Canvas API
    /// `DELETE /api/v1/groups/:group_id/memberships/:id`
    pub fn remove_self(&self) -> (r: Result<Request>)
        requires
            !(self.group_id is None) ==> self.requester is Some,
        ensures
            (self.group_id is None) ==> (r matches Err(e) && is_bad_request(e, "GroupMembership has no group_id"@)),
            !(self.group_id is None) ==> self.requester.unwrap().sends_scoped(
                r,
                Method::Delete,
                "groups/"@ + dec(self.group_id.unwrap() as nat) + "/memberships/"@ + dec(self.id as nat),
                PayloadView::Query(seq![]),
                Scope::none(),
            ),
    {
        if self.group_id.is_none() {
            return Err(bad_request("GroupMembership has no group_id"));
        }
        let mut endpoint = String::new();
        endpoint.append("groups/");
        push_u64(&mut endpoint, self.group_id.unwrap());
        endpoint.append("/memberships/");
        push_u64(&mut endpoint, self.id);
        assert(endpoint@ =~= "groups/"@ + dec(self.group_id.unwrap() as nat) + "/memberships/"@ + dec(self.id as nat));
        let form: Vec<(String, String)> = Vec::new();
        assert(pairs_view(form@) =~= seq![]);
        scoped(self.req().delete(endpoint.as_str(), form), Scope::empty())
    }
}

/// A Canvas group category (collection of groups).
#[derive(Debug)]
pub struct GroupCategory {
    pub id: u64,
    pub name: Option<String>,
    pub role: Option<String>,
    pub self_signup: Option<String>,
    pub auto_leader: Option<String>,
    pub context_type: Option<String>,
    pub context_id: Option<u64>,
    pub group_limit: Option<u64>,
    pub groups_count: Option<u64>,
    pub unassigned_users_count: Option<u64>,
    pub requester: Option<Arc<Requester>>,
}

impl GroupCategory {
    /// Takes in this GroupCategory as fetched: it keeps `requester` for its own calls.
    pub fn adopt(&mut self, requester: Arc<Requester>, scope: &Scope)
        ensures
            final(self).requester == Some(requester),
            final(self).id == old(self).id,
            final(self).name == old(self).name,
            final(self).role == old(self).role,
            final(self).self_signup == old(self).self_signup,
            final(self).auto_leader == old(self).auto_leader,
            final(self).context_type == old(self).context_type,
            final(self).context_id == old(self).context_id,
            final(self).group_limit == old(self).group_limit,
            final(self).groups_count == old(self).groups_count,
            final(self).unassigned_users_count == old(self).unassigned_users_count,
    {
        self.requester = Some(requester);
    }

    fn req(&self) -> (r: &Arc<Requester>)
        requires
            self.requester is Some,
        ensures
            *r == self.requester.unwrap(),
    {
        self.requester.as_ref().unwrap()
    }

    /// Update this group category.
    ///
    /// # Canvas API
    /// `PUT /api/v1/group_categories/:id`
    pub fn update(&self, params: GroupCategoryParams) -> (r: Result<Request>)
        requires
            self.requester is Some,
        ensures
            self.requester.unwrap().sends_scoped(
                r,
                Method::Put,
                "group_categories/"@ + dec(self.id as nat),
                PayloadView::Form(params.form_view("group_category"@)),
                Scope::none(),
            ),
    {
        let mut endpoint = String::new();
        endpoint.append("group_categories/");
        push_u64(&mut endpoint, self.id);
        assert(endpoint@ =~= "group_categories/"@ + dec(self.id as nat));
        let form: Vec<(String, String)> = params.to_form("group_category");
        assert(pairs_view(form@) =~= params.form_view("group_category"@));
        scoped(self.req().put(endpoint.as_str(), form), Scope::empty())
    }

    /// Delete this group category.
    ///
    /// # Canvas API
    /// `DELETE /api/v1/group_categories/:id`
    pub fn delete(&self) -> (r: Result<Request>)
        requires
            self.requester is Some,
        ensures
            self.requester.unwrap().sends_scoped(
                r,
                Method::Delete,
                "group_categories/"@ + dec(self.id as nat),
                PayloadView::Query(seq![]),
                Scope::none(),
            ),
    {
        let mut endpoint = String::new();
        endpoint.append("group_categories/");
        push_u64(&mut endpoint, self.id);
        assert(endpoint@ =~= "group_categories/"@ + dec(self.id as nat));
        let form: Vec<(String, String)> = Vec::new();
        assert(pairs_view(form@) =~= seq![]);
        scoped(self.req().delete(endpoint.as_str(), form), Scope::empty())
    }

    /// Stream all groups in this category.
    ///
    /// # Canvas API
    /// `GET /api/v1/group_categories/:id/groups`
    pub fn get_groups(&self) -> (s: PageStream<Group>)
        requires
            self.requester is Some,
        ensures
            lists(s, *self.requester.unwrap(), self.requester.unwrap().base(), "group_categories/"@ + dec(self.id as nat) + "/groups"@, seq![], Scope::none()),
    {
        let mut endpoint = String::new();
        endpoint.append("group_categories/");
        push_u64(&mut endpoint, self.id);
        endpoint.append("/groups");
        assert(endpoint@ =~= "group_categories/"@ + dec(self.id as nat) + "/groups"@);
        let form: Vec<(String, String)> = Vec::new();
        assert(pairs_view(form@) =~= seq![]);
        PageStream::new(share(self.req()), endpoint.as_str(), form).with_scope(Scope::empty())
    }

    /// Stream all users in this category.
    ///
    /// # Canvas API
    /// `GET /api/v1/group_categories/:id/users`
    pub fn get_users(&self) -> (s: PageStream<JsonValue>)
        requires
            self.requester is Some,
        ensures
            lists(s, *self.requester.unwrap(), self.requester.unwrap().base(), "group_categories/"@ + dec(self.id as nat) + "/users"@, seq![], Scope::none()),
    {
        let mut endpoint = String::new();
        endpoint.append("group_categories/");
        push_u64(&mut endpoint, self.id);
        endpoint.append("/users");
        assert(endpoint@ =~= "group_categories/"@ + dec(self.id as nat) + "/users"@);
        let form: Vec<(String, String)> = Vec::new();
        assert(pairs_view(form@) =~= seq![]);
        PageStream::new(share(self.req()), endpoint.as_str(), form).with_scope(Scope::empty())
    }

    /// Create a group in this category.
    ///
    /// # Canvas API
    /// `POST /api/v1/group_categories/:id/groups`
    pub fn create_group(&self, name: &str) -> (r: Result<Request>)
        requires
            self.requester is Some,
        ensures
            self.requester.unwrap().sends_scoped(
                r,
                Method::Post,
                "group_categories/"@ + dec(self.id as nat) + "/groups"@,
                PayloadView::Form(seq![("name"@, name@)]),
                Scope::none(),
            ),
    {
        let mut endpoint = String::new();
        endpoint.append("group_categories/");
        push_u64(&mut endpoint, self.id);
        endpoint.append("/groups");
        assert(endpoint@ =~= "group_categories/"@ + dec(self.id as nat) + "/groups"@);
        let form: Vec<(String, String)> = vec![("name".to_owned(), name.to_owned())];
        assert(pairs_view(form@) =~= seq![("name"@, name@)]);
        scoped(self.req().post(endpoint.as_str(), form), Scope::empty())
    }

    /// Assign unassigned members to groups.
    ///
    /// # Canvas API
    /// `POST /api/v1/group_categories/:id/assign_unassigned_members`
    pub fn assign_members(&self) -> (r: Result<Request>)
        requires
            self.requester is Some,
        ensures
            self.requester.unwrap().sends_scoped(
                r,
                Method::Post,
                "group_categories/"@ + dec(self.id as nat) + "/assign_unassigned_members"@,
                PayloadView::Form(seq![]),
                Scope::none(),
            ),
    {
        let mut endpoint = String::new();
        endpoint.append("group_categories/");
        push_u64(&mut endpoint, self.id);
        endpoint.append("/assign_unassigned_members");
        assert(endpoint@ =~= "group_categories/"@ + dec(self.id as nat) + "/assign_unassigned_members"@);
        let form: Vec<(String, String)> = Vec::new();
        assert(pairs_view(form@) =~= seq![]);
        scoped(self.req().post(endpoint.as_str(), form), Scope::empty())
    }
}

impl Group {
    /// Resolve a folder path to the list of folders along the path. No path,
    /// or an empty one, lists the root folder.
    ///
    /// # Canvas API
    /// `GET /api/v1/groups/:id/folders/by_path/*full_path`
    pub fn resolve_path(&self, full_path: Option<&str>) -> (s: PageStream<Folder>)
        requires
            self.requester is Some,
        ensures
            lists(
                s,
                *self.requester.unwrap(),
                self.requester.unwrap().base(),
                "groups/"@ + dec(self.id as nat) + "/folders/by_path"@ + match full_path {
                    Some(p) => if p@.len() > 0 {
                        "/"@ + p@
                    } else {
                        seq![]
                    },
                    None => seq![],
                },
                seq![],
                Scope::none(),
            ),
    {
        let mut endpoint = "groups/".to_owned();
        push_u64(&mut endpoint, self.id);
        endpoint.append("/folders/by_path");
        let ghost base = endpoint@;
        match full_path {
            Some(p) => {
                if p.unicode_len() > 0 {
                    endpoint.append("/");
                    endpoint.append(p);
                    assert(endpoint@ =~= base + ("/"@ + p@));
                } else {
                    assert(endpoint@ =~= base + Seq::<char>::empty());
                }
            },
            None => {
                assert(endpoint@ =~= base + Seq::<char>::empty());
            },
        }
        let form: Vec<(String, String)> = Vec::new();
        assert(pairs_view(form@) =~= seq![]);
        PageStream::new(share(self.req()), endpoint.as_str(), form)
    }
}

} // verus!
