use vstd::prelude::*;
use std::sync::Arc;
use crate::error::Result;
use crate::http::{scoped, Method, PayloadView, Request, Requester, Scope};
use crate::json::JsonValue;
use crate::params::{
    add_text, concat_upto, field, lemma_part_in_concat, member_key, pairs_view, text_of,
};
use crate::text::{dec, id_or, id_or_spec, push_u64};
use crate::resources::account::Account;

verus! {

#[derive(Debug)]
pub struct EnrollmentTerm {
    pub id: u64,
    pub sis_term_id: Option<String>,
    pub sis_import_id: Option<u64>,
    pub name: Option<String>,
    pub start_at: Option<String>,
    pub end_at: Option<String>,
    pub created_at: Option<String>,
    pub workflow_state: Option<String>,
    pub overrides: Option<JsonValue>,
    pub course_count: Option<u64>,
    /// Account that owns this term — set when returned via Account methods.
    pub account_id: Option<u64>,
    pub requester: Option<Arc<Requester>>,
}

impl EnrollmentTerm {
    /// Takes in this EnrollmentTerm as fetched: it keeps `requester` for its own calls,
    /// and takes `account_id` from the scope where the scope sets it.
    pub fn adopt(&mut self, requester: Arc<Requester>, scope: &Scope)
        ensures
            final(self).requester == Some(requester),
            final(self).account_id == (match scope.account_id {
                Some(v) => v,
                None => old(self).account_id,
            }),
            final(self).id == old(self).id,
            final(self).sis_term_id == old(self).sis_term_id,
            final(self).sis_import_id == old(self).sis_import_id,
            final(self).name == old(self).name,
            final(self).start_at == old(self).start_at,
            final(self).end_at == old(self).end_at,
            final(self).created_at == old(self).created_at,
            final(self).workflow_state == old(self).workflow_state,
            final(self).overrides == old(self).overrides,
            final(self).course_count == old(self).course_count,
    {
        self.requester = Some(requester);
        if let Some(v) = scope.account_id {
            self.account_id = v;
        }
    }

    fn req(&self) -> (r: &Arc<Requester>)
        requires
            self.requester is Some,
        ensures
            *r == self.requester.unwrap(),
    {
        self.requester.as_ref().unwrap()
    }

    /// Delete this enrollment term.
    ///
    /// `DELETE /api/v1/accounts/:account_id/terms/:id`
    pub fn delete(&self) -> (r: Result<Request>)
        requires
            self.requester is Some,
        ensures
            self.requester.unwrap().sends_scoped(
                r,
                Method::Delete,
                "accounts/"@ + dec(id_or_spec(self.account_id, 1) as nat) + "/terms/"@ + dec(self.id as nat),
                PayloadView::Query(seq![]),
                Scope { account_id: Some(self.account_id), ..Scope::none() },
            ),
    {
        let mut endpoint = String::new();
        endpoint.append("accounts/");
        push_u64(&mut endpoint, id_or(self.account_id, 1));
        endpoint.append("/terms/");
        push_u64(&mut endpoint, self.id);
        assert(endpoint@ =~= "accounts/"@ + dec(id_or_spec(self.account_id, 1) as nat) + "/terms/"@ + dec(self.id as nat));
        let form: Vec<(String, String)> = Vec::new();
        assert(pairs_view(form@) =~= seq![]);
        scoped(self.req().delete(endpoint.as_str(), form), Scope { account_id: Some(self.account_id), ..Scope::empty() })
    }

    /// Update this enrollment term.
    ///
    /// `PUT /api/v1/accounts/:account_id/terms/:id`
    pub fn edit(&self, params: EnrollmentTermParams) -> (r: Result<Request>)
        requires
            self.requester is Some,
        ensures
            self.requester.unwrap().sends_scoped(
                r,
                Method::Put,
                "accounts/"@ + dec(id_or_spec(self.account_id, 1) as nat) + "/terms/"@ + dec(self.id as nat),
                PayloadView::Form(params.form_view("enrollment_term"@)),
                Scope { account_id: Some(self.account_id), ..Scope::none() },
            ),
    {
        let mut endpoint = String::new();
        endpoint.append("accounts/");
        push_u64(&mut endpoint, id_or(self.account_id, 1));
        endpoint.append("/terms/");
        push_u64(&mut endpoint, self.id);
        assert(endpoint@ =~= "accounts/"@ + dec(id_or_spec(self.account_id, 1) as nat) + "/terms/"@ + dec(self.id as nat));
        let form: Vec<(String, String)> = params.to_form("enrollment_term");
        assert(pairs_view(form@) =~= params.form_view("enrollment_term"@));
        scoped(self.req().put(endpoint.as_str(), form), Scope { account_id: Some(self.account_id), ..Scope::empty() })
    }
}

#[derive(Debug, Default)]
pub struct EnrollmentTermParams {
    pub name: Option<String>,
    pub start_at: Option<String>,
    pub end_at: Option<String>,
    pub sis_term_id: Option<String>,
}

impl EnrollmentTermParams {
    /// The parameters these settings give under `key`: `key[member]` for each
    /// member that is set, in the order of the member names.
    pub open spec fn form_view(self, key: Seq<char>) -> Seq<(Seq<char>, Seq<char>)> {
        field(key, "end_at"@, text_of(self.end_at))
        + field(key, "name"@, text_of(self.name))
        + field(key, "sis_term_id"@, text_of(self.sis_term_id))
        + field(key, "start_at"@, text_of(self.start_at))
    }

    /// The parameters these settings give under `key` (what flattening
    /// `{key: settings}` gives).
    pub fn to_form(&self, key: &str) -> (r: Vec<(String, String)>)
        ensures
            pairs_view(r@) == self.form_view(key@),
    {
        let mut out: Vec<(String, String)> = Vec::new();
        add_text(&mut out, key, "end_at", &self.end_at);
        add_text(&mut out, key, "name", &self.name);
        add_text(&mut out, key, "sis_term_id", &self.sis_term_id);
        add_text(&mut out, key, "start_at", &self.start_at);
        assert(pairs_view(out@) =~= self.form_view(key@));
        out
    }

    /// Every member of these settings that is set is sent under `key[member]`,
    /// with its text (a boolean as `true`/`false`, a number in decimal).
    pub proof fn lemma_form_sends_members(self, key: Seq<char>)
        ensures
            self.end_at is Some ==> self.form_view(key).contains((member_key(key, "end_at"@), self.end_at.unwrap()@)),
            self.name is Some ==> self.form_view(key).contains((member_key(key, "name"@), self.name.unwrap()@)),
            self.sis_term_id is Some ==> self.form_view(key).contains((member_key(key, "sis_term_id"@), self.sis_term_id.unwrap()@)),
            self.start_at is Some ==> self.form_view(key).contains((member_key(key, "start_at"@), self.start_at.unwrap()@)),
    {
        let parts = seq![
            field(key, "end_at"@, text_of(self.end_at)),
            field(key, "name"@, text_of(self.name)),
            field(key, "sis_term_id"@, text_of(self.sis_term_id)),
            field(key, "start_at"@, text_of(self.start_at)),
        ];
        assert(self.form_view(key) == concat_upto(parts, 4)) by {
            assert(concat_upto(parts, 0) == Seq::<(Seq<char>, Seq<char>)>::empty());
            assert(concat_upto(parts, 1) =~= parts[0]);
            assert(concat_upto(parts, 2) == concat_upto(parts, 1) + parts[1]);
            assert(concat_upto(parts, 3) == concat_upto(parts, 2) + parts[2]);
            assert(concat_upto(parts, 4) == concat_upto(parts, 3) + parts[3]);
        }
        assert(self.end_at is Some ==> self.form_view(key).contains((member_key(key, "end_at"@), self.end_at.unwrap()@))) by {
            if self.end_at is Some {
                assert(parts[0][0] == (member_key(key, "end_at"@), self.end_at.unwrap()@));
                lemma_part_in_concat(parts, 4, 0, (member_key(key, "end_at"@), self.end_at.unwrap()@));
            }
        }
        assert(self.name is Some ==> self.form_view(key).contains((member_key(key, "name"@), self.name.unwrap()@))) by {
            if self.name is Some {
                assert(parts[1][0] == (member_key(key, "name"@), self.name.unwrap()@));
                lemma_part_in_concat(parts, 4, 1, (member_key(key, "name"@), self.name.unwrap()@));
            }
        }
        assert(self.sis_term_id is Some ==> self.form_view(key).contains((member_key(key, "sis_term_id"@), self.sis_term_id.unwrap()@))) by {
            if self.sis_term_id is Some {
                assert(parts[2][0] == (member_key(key, "sis_term_id"@), self.sis_term_id.unwrap()@));
                lemma_part_in_concat(parts, 4, 2, (member_key(key, "sis_term_id"@), self.sis_term_id.unwrap()@));
            }
        }
        assert(self.start_at is Some ==> self.form_view(key).contains((member_key(key, "start_at"@), self.start_at.unwrap()@))) by {
            if self.start_at is Some {
                assert(parts[3][0] == (member_key(key, "start_at"@), self.start_at.unwrap()@));
                lemma_part_in_concat(parts, 4, 3, (member_key(key, "start_at"@), self.start_at.unwrap()@));
            }
        }
    }
}

} // verus!
