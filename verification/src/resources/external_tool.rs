use vstd::prelude::*;
use std::sync::Arc;
use crate::error::Result;
use crate::http::{scoped, Method, PayloadView, Request, Requester, Scope};
use crate::json::{get, JsonValue};
use crate::params::{
    add_bool, add_text, bool_of, concat_upto, field, lemma_part_in_concat, member_key, pairs_view,
    text_of,
};
use crate::text::{bool_text, dec, push_u64};
use crate::resources::account::Account;
use crate::resources::course::Course;

verus! {

/// A Canvas external (LTI) tool.
#[derive(Debug)]
pub struct ExternalTool {
    pub id: u64,
    pub name: Option<String>,
    pub description: Option<String>,
    pub url: Option<String>,
    pub domain: Option<String>,
    pub consumer_key: Option<String>,
    pub course_id: Option<u64>,
    pub account_id: Option<u64>,
    pub workflow_state: Option<String>,
    pub privacy_level: Option<String>,
    pub custom_fields: Option<JsonValue>,
    pub course_navigation: Option<JsonValue>,
    pub account_navigation: Option<JsonValue>,
    pub user_navigation: Option<JsonValue>,
    pub editor_button: Option<JsonValue>,
    pub resource_selection: Option<JsonValue>,
    pub homework_submission: Option<JsonValue>,
    pub selection_width: Option<u64>,
    pub selection_height: Option<u64>,
    pub icon_url: Option<String>,
    pub is_rce_favorite: Option<bool>,
    pub is_top_nav_favorite: Option<bool>,
    pub requester: Option<Arc<Requester>>,
}

impl ExternalTool {
    /// Takes in this ExternalTool as fetched: it keeps `requester` for its own calls.
    pub fn adopt(&mut self, requester: Arc<Requester>, scope: &Scope)
        ensures
            final(self).requester == Some(requester),
            final(self).id == old(self).id,
            final(self).name == old(self).name,
            final(self).description == old(self).description,
            final(self).url == old(self).url,
            final(self).domain == old(self).domain,
            final(self).consumer_key == old(self).consumer_key,
            final(self).course_id == old(self).course_id,
            final(self).account_id == old(self).account_id,
            final(self).workflow_state == old(self).workflow_state,
            final(self).privacy_level == old(self).privacy_level,
            final(self).custom_fields == old(self).custom_fields,
            final(self).course_navigation == old(self).course_navigation,
            final(self).account_navigation == old(self).account_navigation,
            final(self).user_navigation == old(self).user_navigation,
            final(self).editor_button == old(self).editor_button,
            final(self).resource_selection == old(self).resource_selection,
            final(self).homework_submission == old(self).homework_submission,
            final(self).selection_width == old(self).selection_width,
            final(self).selection_height == old(self).selection_height,
            final(self).icon_url == old(self).icon_url,
            final(self).is_rce_favorite == old(self).is_rce_favorite,
            final(self).is_top_nav_favorite == old(self).is_top_nav_favorite,
    {
        self.requester = Some(requester);
    }

    fn req(&self) -> (r: &Arc<Requester>)
        requires
            self.requester is Some,
        ensures
            *r == self.requester.unwrap(),
    {
        self.requester.as_ref().unwrap()
    }

    /// Update this external tool.
    ///
    /// # Canvas API
    /// `PUT /api/v1/courses/:course_id/external_tools/:id`
    /// `PUT /api/v1/accounts/:account_id/external_tools/:id`
    pub fn edit(&self, params: ExternalToolParams) -> (r: Result<Request>)
        requires
            self.requester is Some,
            self.has_parent(),
        ensures
            self.requester.unwrap().sends_scoped(
                r,
                Method::Put,
                self.parent_type_view() + "s/"@ + dec(self.parent_id_view() as nat) + "/external_tools/"@ + dec(self.id as nat),
                PayloadView::Form(params.form_view("external_tool"@)),
                Scope::none(),
            ),
    {
        let parent_type_text = self.parent_type_text();
        let mut endpoint = String::new();
        endpoint.append(parent_type_text.as_str());
        endpoint.append("s/");
        push_u64(&mut endpoint, self.parent_id());
        endpoint.append("/external_tools/");
        push_u64(&mut endpoint, self.id);
        assert(endpoint@ =~= self.parent_type_view() + "s/"@ + dec(self.parent_id_view() as nat) + "/external_tools/"@ + dec(self.id as nat));
        let form: Vec<(String, String)> = params.to_form("external_tool");
        assert(pairs_view(form@) =~= params.form_view("external_tool"@));
        scoped(self.req().put(endpoint.as_str(), form), Scope::empty())
    }

    /// Delete this external tool.
    ///
    /// # Canvas API
    /// `DELETE /api/v1/courses/:course_id/external_tools/:id`
    /// `DELETE /api/v1/accounts/:account_id/external_tools/:id`
    pub fn delete(&self) -> (r: Result<Request>)
        requires
            self.requester is Some,
            self.has_parent(),
        ensures
            self.requester.unwrap().sends_scoped(
                r,
                Method::Delete,
                self.parent_type_view() + "s/"@ + dec(self.parent_id_view() as nat) + "/external_tools/"@ + dec(self.id as nat),
                PayloadView::Query(seq![]),
                Scope::none(),
            ),
    {
        let parent_type_text = self.parent_type_text();
        let mut endpoint = String::new();
        endpoint.append(parent_type_text.as_str());
        endpoint.append("s/");
        push_u64(&mut endpoint, self.parent_id());
        endpoint.append("/external_tools/");
        push_u64(&mut endpoint, self.id);
        assert(endpoint@ =~= self.parent_type_view() + "s/"@ + dec(self.parent_id_view() as nat) + "/external_tools/"@ + dec(self.id as nat));
        let form: Vec<(String, String)> = Vec::new();
        assert(pairs_view(form@) =~= seq![]);
        scoped(self.req().delete(endpoint.as_str(), form), Scope::empty())
    }

    /// Fetch the parent resource (Course or Account) that owns this tool.
    ///
    /// # Canvas API
    /// `GET /api/v1/courses/:course_id`
    /// `GET /api/v1/accounts/:account_id`
    pub fn get_parent(&self) -> (r: Result<Request>)
        requires
            self.requester is Some,
            self.has_parent(),
        ensures
            self.requester.unwrap().sends_scoped(
                r,
                Method::Get,
                self.parent_type_view() + "s/"@ + dec(self.parent_id_view() as nat),
                PayloadView::Query(seq![]),
                Scope::none(),
            ),
    {
        let parent_type_text = self.parent_type_text();
        let mut endpoint = String::new();
        endpoint.append(parent_type_text.as_str());
        endpoint.append("s/");
        push_u64(&mut endpoint, self.parent_id());
        assert(endpoint@ =~= self.parent_type_view() + "s/"@ + dec(self.parent_id_view() as nat));
        let form: Vec<(String, String)> = Vec::new();
        assert(pairs_view(form@) =~= seq![]);
        scoped(self.req().get(endpoint.as_str(), form), Scope::empty())
    }

    /// Get the sessionless launch URL for this external tool.
    ///
    /// # Canvas API
    /// `GET /api/v1/courses/:course_id/external_tools/sessionless_launch`
    /// `GET /api/v1/accounts/:account_id/external_tools/sessionless_launch`
    pub fn get_sessionless_launch_url(&self, params: Vec<(String, String)>) -> (r: Result<Request>)
        requires
            self.requester is Some,
            self.has_parent(),
        ensures
            self.requester.unwrap().sends_scoped(
                r,
                Method::Get,
                self.parent_type_view() + "s/"@ + dec(self.parent_id_view() as nat) + "/external_tools/sessionless_launch"@,
                PayloadView::Query(pairs_view(params@)),
                Scope::none(),
            ),
    {
        let parent_type_text = self.parent_type_text();
        let mut endpoint = String::new();
        endpoint.append(parent_type_text.as_str());
        endpoint.append("s/");
        push_u64(&mut endpoint, self.parent_id());
        endpoint.append("/external_tools/sessionless_launch");
        assert(endpoint@ =~= self.parent_type_view() + "s/"@ + dec(self.parent_id_view() as nat) + "/external_tools/sessionless_launch"@);
        let form: Vec<(String, String)> = params;
        assert(pairs_view(form@) =~= pairs_view(params@));
        scoped(self.req().get(endpoint.as_str(), form), Scope::empty())
    }
}

/// Parameters for creating or updating an external tool.
#[derive(Debug, Default)]
pub struct ExternalToolParams {
    pub name: Option<String>,
    pub privacy_level: Option<String>,
    pub consumer_key: Option<String>,
    pub shared_secret: Option<String>,
    pub description: Option<String>,
    pub url: Option<String>,
    pub domain: Option<String>,
    pub icon_url: Option<String>,
    pub text: Option<String>,
    pub is_rce_favorite: Option<bool>,
}

impl ExternalToolParams {
    /// The parameters these settings give under `key`: `key[member]` for each
    /// member that is set, in the order of the member names.
    pub open spec fn form_view(self, key: Seq<char>) -> Seq<(Seq<char>, Seq<char>)> {
        field(key, "consumer_key"@, text_of(self.consumer_key))
        + field(key, "description"@, text_of(self.description))
        + field(key, "domain"@, text_of(self.domain))
        + field(key, "icon_url"@, text_of(self.icon_url))
        + field(key, "is_rce_favorite"@, bool_of(self.is_rce_favorite))
        + field(key, "name"@, text_of(self.name))
        + field(key, "privacy_level"@, text_of(self.privacy_level))
        + field(key, "shared_secret"@, text_of(self.shared_secret))
        + field(key, "text"@, text_of(self.text))
        + field(key, "url"@, text_of(self.url))
    }

    /// The parameters these settings give under `key` (what flattening
    /// `{key: settings}` gives).
    pub fn to_form(&self, key: &str) -> (r: Vec<(String, String)>)
        ensures
            pairs_view(r@) == self.form_view(key@),
    {
        let mut out: Vec<(String, String)> = Vec::new();
        add_text(&mut out, key, "consumer_key", &self.consumer_key);
        add_text(&mut out, key, "description", &self.description);
        add_text(&mut out, key, "domain", &self.domain);
        add_text(&mut out, key, "icon_url", &self.icon_url);
        add_bool(&mut out, key, "is_rce_favorite", self.is_rce_favorite);
        add_text(&mut out, key, "name", &self.name);
        add_text(&mut out, key, "privacy_level", &self.privacy_level);
        add_text(&mut out, key, "shared_secret", &self.shared_secret);
        add_text(&mut out, key, "text", &self.text);
        add_text(&mut out, key, "url", &self.url);
        assert(pairs_view(out@) =~= self.form_view(key@));
        out
    }

    /// Every member of these settings that is set is sent under `key[member]`,
    /// with its text (a boolean as `true`/`false`, a number in decimal).
    #[verifier::rlimit(40)]
    pub proof fn lemma_form_sends_members(self, key: Seq<char>)
        ensures
            self.consumer_key is Some ==> self.form_view(key).contains((member_key(key, "consumer_key"@), self.consumer_key.unwrap()@)),
            self.description is Some ==> self.form_view(key).contains((member_key(key, "description"@), self.description.unwrap()@)),
            self.domain is Some ==> self.form_view(key).contains((member_key(key, "domain"@), self.domain.unwrap()@)),
            self.icon_url is Some ==> self.form_view(key).contains((member_key(key, "icon_url"@), self.icon_url.unwrap()@)),
            self.is_rce_favorite is Some ==> self.form_view(key).contains((member_key(key, "is_rce_favorite"@), bool_text(self.is_rce_favorite.unwrap()))),
            self.name is Some ==> self.form_view(key).contains((member_key(key, "name"@), self.name.unwrap()@)),
            self.privacy_level is Some ==> self.form_view(key).contains((member_key(key, "privacy_level"@), self.privacy_level.unwrap()@)),
            self.shared_secret is Some ==> self.form_view(key).contains((member_key(key, "shared_secret"@), self.shared_secret.unwrap()@)),
            self.text is Some ==> self.form_view(key).contains((member_key(key, "text"@), self.text.unwrap()@)),
            self.url is Some ==> self.form_view(key).contains((member_key(key, "url"@), self.url.unwrap()@)),
    {
        let parts = seq![
            field(key, "consumer_key"@, text_of(self.consumer_key)),
            field(key, "description"@, text_of(self.description)),
            field(key, "domain"@, text_of(self.domain)),
            field(key, "icon_url"@, text_of(self.icon_url)),
            field(key, "is_rce_favorite"@, bool_of(self.is_rce_favorite)),
            field(key, "name"@, text_of(self.name)),
            field(key, "privacy_level"@, text_of(self.privacy_level)),
            field(key, "shared_secret"@, text_of(self.shared_secret)),
            field(key, "text"@, text_of(self.text)),
            field(key, "url"@, text_of(self.url)),
        ];
        assert(self.form_view(key) == concat_upto(parts, 10)) by {
            assert(concat_upto(parts, 0) == Seq::<(Seq<char>, Seq<char>)>::empty());
            assert(concat_upto(parts, 1) =~= parts[0]);
            assert(concat_upto(parts, 2) == concat_upto(parts, 1) + parts[1]);
            assert(concat_upto(parts, 3) == concat_upto(parts, 2) + parts[2]);
            assert(concat_upto(parts, 4) == concat_upto(parts, 3) + parts[3]);
            assert(concat_upto(parts, 5) == concat_upto(parts, 4) + parts[4]);
            assert(concat_upto(parts, 6) == concat_upto(parts, 5) + parts[5]);
            assert(concat_upto(parts, 7) == concat_upto(parts, 6) + parts[6]);
            assert(concat_upto(parts, 8) == concat_upto(parts, 7) + parts[7]);
            assert(concat_upto(parts, 9) == concat_upto(parts, 8) + parts[8]);
            assert(concat_upto(parts, 10) == concat_upto(parts, 9) + parts[9]);
        }
        assert(self.consumer_key is Some ==> self.form_view(key).contains((member_key(key, "consumer_key"@), self.consumer_key.unwrap()@))) by {
            if self.consumer_key is Some {
                assert(parts[0][0] == (member_key(key, "consumer_key"@), self.consumer_key.unwrap()@));
                lemma_part_in_concat(parts, 10, 0, (member_key(key, "consumer_key"@), self.consumer_key.unwrap()@));
            }
        }
        assert(self.description is Some ==> self.form_view(key).contains((member_key(key, "description"@), self.description.unwrap()@))) by {
            if self.description is Some {
                assert(parts[1][0] == (member_key(key, "description"@), self.description.unwrap()@));
                lemma_part_in_concat(parts, 10, 1, (member_key(key, "description"@), self.description.unwrap()@));
            }
        }
        assert(self.domain is Some ==> self.form_view(key).contains((member_key(key, "domain"@), self.domain.unwrap()@))) by {
            if self.domain is Some {
                assert(parts[2][0] == (member_key(key, "domain"@), self.domain.unwrap()@));
                lemma_part_in_concat(parts, 10, 2, (member_key(key, "domain"@), self.domain.unwrap()@));
            }
        }
        assert(self.icon_url is Some ==> self.form_view(key).contains((member_key(key, "icon_url"@), self.icon_url.unwrap()@))) by {
            if self.icon_url is Some {
                assert(parts[3][0] == (member_key(key, "icon_url"@), self.icon_url.unwrap()@));
                lemma_part_in_concat(parts, 10, 3, (member_key(key, "icon_url"@), self.icon_url.unwrap()@));
            }
        }
        assert(self.is_rce_favorite is Some ==> self.form_view(key).contains((member_key(key, "is_rce_favorite"@), bool_text(self.is_rce_favorite.unwrap())))) by {
            if self.is_rce_favorite is Some {
                assert(parts[4][0] == (member_key(key, "is_rce_favorite"@), bool_text(self.is_rce_favorite.unwrap())));
                lemma_part_in_concat(parts, 10, 4, (member_key(key, "is_rce_favorite"@), bool_text(self.is_rce_favorite.unwrap())));
            }
        }
        assert(self.name is Some ==> self.form_view(key).contains((member_key(key, "name"@), self.name.unwrap()@))) by {
            if self.name is Some {
                assert(parts[5][0] == (member_key(key, "name"@), self.name.unwrap()@));
                lemma_part_in_concat(parts, 10, 5, (member_key(key, "name"@), self.name.unwrap()@));
            }
        }
        assert(self.privacy_level is Some ==> self.form_view(key).contains((member_key(key, "privacy_level"@), self.privacy_level.unwrap()@))) by {
            if self.privacy_level is Some {
                assert(parts[6][0] == (member_key(key, "privacy_level"@), self.privacy_level.unwrap()@));
                lemma_part_in_concat(parts, 10, 6, (member_key(key, "privacy_level"@), self.privacy_level.unwrap()@));
            }
        }
        assert(self.shared_secret is Some ==> self.form_view(key).contains((member_key(key, "shared_secret"@), self.shared_secret.unwrap()@))) by {
            if self.shared_secret is Some {
                assert(parts[7][0] == (member_key(key, "shared_secret"@), self.shared_secret.unwrap()@));
                lemma_part_in_concat(parts, 10, 7, (member_key(key, "shared_secret"@), self.shared_secret.unwrap()@));
            }
        }
        assert(self.text is Some ==> self.form_view(key).contains((member_key(key, "text"@), self.text.unwrap()@))) by {
            if self.text is Some {
                assert(parts[8][0] == (member_key(key, "text"@), self.text.unwrap()@));
                lemma_part_in_concat(parts, 10, 8, (member_key(key, "text"@), self.text.unwrap()@));
            }
        }
        assert(self.url is Some ==> self.form_view(key).contains((member_key(key, "url"@), self.url.unwrap()@))) by {
            if self.url is Some {
                assert(parts[9][0] == (member_key(key, "url"@), self.url.unwrap()@));
                lemma_part_in_concat(parts, 10, 9, (member_key(key, "url"@), self.url.unwrap()@));
            }
        }
    }
}

impl ExternalTool {
    /// The kind of object the tool belongs to: `course` when it has a course id,
    /// `account` otherwise.
    pub open spec fn parent_type_view(&self) -> Seq<char> {
        if self.course_id is Some {
            "course"@
        } else {
            "account"@
        }
    }

    fn parent_type_text(&self) -> (s: String)
        ensures
            s@ == self.parent_type_view(),
    {
        if self.course_id.is_some() {
            "course".to_owned()
        } else {
            "account".to_owned()
        }
    }

    /// Whether the tool knows the object it belongs to.
    pub open spec fn has_parent(&self) -> bool {
        self.course_id is Some || self.account_id is Some
    }

    /// The id of the object the tool belongs to: its course id, else its account id.
    pub open spec fn parent_id_view(&self) -> u64 {
        match self.course_id {
            Some(v) => v,
            None => self.account_id.unwrap(),
        }
    }

    fn parent_id(&self) -> (r: u64)
        requires
            self.has_parent(),
        ensures
            r == self.parent_id_view(),
    {
        match self.course_id {
            Some(v) => v,
            None => self.account_id.unwrap(),
        }
    }
}

} // verus!
