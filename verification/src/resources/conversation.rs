use vstd::prelude::*;
use std::sync::Arc;
use crate::error::Result;
use crate::http::{scoped, Method, PayloadView, Request, Requester, Scope};
use crate::params::{
    add_bool, add_text, bool_of, concat_upto, field, id_params, id_params_view,
    lemma_part_in_concat, member_key, pairs_view, text_of, text_params, text_params_view,
};
use crate::text::{bool_text, dec, push_u64};

verus! {

#[derive(Debug)]
pub struct ConversationParticipant {
    pub id: u64,
    pub name: Option<String>,
    pub avatar_url: Option<String>,
}

#[derive(Debug)]
pub struct ConversationMessage {
    pub id: u64,
    pub created_at: Option<String>,
    pub body: Option<String>,
    pub author_id: Option<u64>,
    pub generated: Option<bool>,
}

#[derive(Debug)]
pub struct Conversation {
    pub id: u64,
    pub subject: Option<String>,
    pub workflow_state: Option<String>,
    pub last_message: Option<String>,
    pub last_message_at: Option<String>,
    pub message_count: Option<u64>,
    pub subscribed: Option<bool>,
    pub private: Option<bool>,
    pub starred: Option<bool>,
    pub audience: Option<Vec<u64>>,
    pub participants: Option<Vec<ConversationParticipant>>,
    pub messages: Option<Vec<ConversationMessage>>,
    pub requester: Option<Arc<Requester>>,
}

impl Conversation {
    /// Takes in this Conversation as fetched: it keeps `requester` for its own calls.
    pub fn adopt(&mut self, requester: Arc<Requester>, scope: &Scope)
        ensures
            final(self).requester == Some(requester),
            final(self).id == old(self).id,
            final(self).subject == old(self).subject,
            final(self).workflow_state == old(self).workflow_state,
            final(self).last_message == old(self).last_message,
            final(self).last_message_at == old(self).last_message_at,
            final(self).message_count == old(self).message_count,
            final(self).subscribed == old(self).subscribed,
            final(self).private == old(self).private,
            final(self).starred == old(self).starred,
            final(self).audience == old(self).audience,
            final(self).participants == old(self).participants,
            final(self).messages == old(self).messages,
    {
        self.requester = Some(requester);
    }

    fn req(&self) -> (r: &Arc<Requester>)
        requires
            self.requester is Some,
        ensures
            *r == self.requester.unwrap(),
    {
        self.requester.as_ref().unwrap()
    }

    /// Add a message to this conversation.
    ///
    /// `POST /api/v1/conversations/:id/add_message`
    pub fn add_message(&self, body: &str) -> (r: Result<Request>)
        requires
            self.requester is Some,
        ensures
            self.requester.unwrap().sends_scoped(
                r,
                Method::Post,
                "conversations/"@ + dec(self.id as nat) + "/add_message"@,
                PayloadView::Form(seq![("body"@, body@)]),
                Scope::none(),
            ),
    {
        let mut endpoint = String::new();
        endpoint.append("conversations/");
        push_u64(&mut endpoint, self.id);
        endpoint.append("/add_message");
        assert(endpoint@ =~= "conversations/"@ + dec(self.id as nat) + "/add_message"@);
        let form: Vec<(String, String)> = vec![("body".to_owned(), body.to_owned())];
        assert(pairs_view(form@) =~= seq![("body"@, body@)]);
        scoped(self.req().post(endpoint.as_str(), form), Scope::empty())
    }

    /// Add recipients to this conversation.
    ///
    /// `POST /api/v1/conversations/:id/add_recipients`
    pub fn add_recipients(&self, recipients: &[&str]) -> (r: Result<Request>)
        requires
            self.requester is Some,
        ensures
            self.requester.unwrap().sends_scoped(
                r,
                Method::Post,
                "conversations/"@ + dec(self.id as nat) + "/add_recipients"@,
                PayloadView::Form(text_params_view("recipients[]"@, recipients@)),
                Scope::none(),
            ),
    {
        let mut endpoint = String::new();
        endpoint.append("conversations/");
        push_u64(&mut endpoint, self.id);
        endpoint.append("/add_recipients");
        assert(endpoint@ =~= "conversations/"@ + dec(self.id as nat) + "/add_recipients"@);
        let form: Vec<(String, String)> = text_params("recipients[]", recipients);
        assert(pairs_view(form@) =~= text_params_view("recipients[]"@, recipients@));
        scoped(self.req().post(endpoint.as_str(), form), Scope::empty())
    }

    /// Delete this conversation.
    ///
    /// `DELETE /api/v1/conversations/:id`
    pub fn delete(&self) -> (r: Result<Request>)
        requires
            self.requester is Some,
        ensures
            self.requester.unwrap().sends_scoped(
                r,
                Method::Delete,
                "conversations/"@ + dec(self.id as nat),
                PayloadView::Query(seq![]),
                Scope::none(),
            ),
    {
        let mut endpoint = String::new();
        endpoint.append("conversations/");
        push_u64(&mut endpoint, self.id);
        assert(endpoint@ =~= "conversations/"@ + dec(self.id as nat));
        let form: Vec<(String, String)> = Vec::new();
        assert(pairs_view(form@) =~= seq![]);
        scoped(self.req().delete(endpoint.as_str(), form), Scope::empty())
    }

    /// Delete specific messages from this conversation.
    ///
    /// `POST /api/v1/conversations/:id/remove_messages`
    pub fn delete_messages(&self, message_ids: &[u64]) -> (r: Result<Request>)
        requires
            self.requester is Some,
        ensures
            self.requester.unwrap().sends_scoped(
                r,
                Method::Post,
                "conversations/"@ + dec(self.id as nat) + "/remove_messages"@,
                PayloadView::Form(id_params_view("remove[]"@, message_ids@)),
                Scope::none(),
            ),
    {
        let mut endpoint = String::new();
        endpoint.append("conversations/");
        push_u64(&mut endpoint, self.id);
        endpoint.append("/remove_messages");
        assert(endpoint@ =~= "conversations/"@ + dec(self.id as nat) + "/remove_messages"@);
        let form: Vec<(String, String)> = id_params("remove[]", message_ids);
        assert(pairs_view(form@) =~= id_params_view("remove[]"@, message_ids@));
        scoped(self.req().post(endpoint.as_str(), form), Scope::empty())
    }

    /// Update this conversation (mark read, star, subscribe, etc.).
    ///
    /// `PUT /api/v1/conversations/:id`
    pub fn edit(&self, params: Vec<(String, String)>) -> (r: Result<Request>)
        requires
            self.requester is Some,
        ensures
            self.requester.unwrap().sends_scoped(
                r,
                Method::Put,
                "conversations/"@ + dec(self.id as nat),
                PayloadView::Form(pairs_view(params@)),
                Scope::none(),
            ),
    {
        let mut endpoint = String::new();
        endpoint.append("conversations/");
        push_u64(&mut endpoint, self.id);
        assert(endpoint@ =~= "conversations/"@ + dec(self.id as nat));
        let form: Vec<(String, String)> = params;
        assert(pairs_view(form@) =~= pairs_view(params@));
        scoped(self.req().put(endpoint.as_str(), form), Scope::empty())
    }
}

#[derive(Debug, Default)]
pub struct ConversationParams {
    pub subject: Option<String>,
    pub force_new: Option<bool>,
    pub group_conversation: Option<bool>,
    pub context_code: Option<String>,
}

impl ConversationParams {
    /// The parameters these settings give under `key`: `key[member]` for each
    /// member that is set, in the order of the member names.
    pub open spec fn form_view(self, key: Seq<char>) -> Seq<(Seq<char>, Seq<char>)> {
        field(key, "context_code"@, text_of(self.context_code))
        + field(key, "force_new"@, bool_of(self.force_new))
        + field(key, "group_conversation"@, bool_of(self.group_conversation))
        + field(key, "subject"@, text_of(self.subject))
    }

    /// The parameters these settings give under `key` (what flattening
    /// `{key: settings}` gives).
    pub fn to_form(&self, key: &str) -> (r: Vec<(String, String)>)
        ensures
            pairs_view(r@) == self.form_view(key@),
    {
        let mut out: Vec<(String, String)> = Vec::new();
        add_text(&mut out, key, "context_code", &self.context_code);
        add_bool(&mut out, key, "force_new", self.force_new);
        add_bool(&mut out, key, "group_conversation", self.group_conversation);
        add_text(&mut out, key, "subject", &self.subject);
        assert(pairs_view(out@) =~= self.form_view(key@));
        out
    }

    /// Every member of these settings that is set is sent under `key[member]`,
    /// with its text (a boolean as `true`/`false`, a number in decimal).
    pub proof fn lemma_form_sends_members(self, key: Seq<char>)
        ensures
            self.context_code is Some ==> self.form_view(key).contains((member_key(key, "context_code"@), self.context_code.unwrap()@)),
            self.force_new is Some ==> self.form_view(key).contains((member_key(key, "force_new"@), bool_text(self.force_new.unwrap()))),
            self.group_conversation is Some ==> self.form_view(key).contains((member_key(key, "group_conversation"@), bool_text(self.group_conversation.unwrap()))),
            self.subject is Some ==> self.form_view(key).contains((member_key(key, "subject"@), self.subject.unwrap()@)),
    {
        let parts = seq![
            field(key, "context_code"@, text_of(self.context_code)),
            field(key, "force_new"@, bool_of(self.force_new)),
            field(key, "group_conversation"@, bool_of(self.group_conversation)),
            field(key, "subject"@, text_of(self.subject)),
        ];
        assert(self.form_view(key) == concat_upto(parts, 4)) by {
            assert(concat_upto(parts, 0) == Seq::<(Seq<char>, Seq<char>)>::empty());
            assert(concat_upto(parts, 1) =~= parts[0]);
            assert(concat_upto(parts, 2) == concat_upto(parts, 1) + parts[1]);
            assert(concat_upto(parts, 3) == concat_upto(parts, 2) + parts[2]);
            assert(concat_upto(parts, 4) == concat_upto(parts, 3) + parts[3]);
        }
        assert(self.context_code is Some ==> self.form_view(key).contains((member_key(key, "context_code"@), self.context_code.unwrap()@))) by {
            if self.context_code is Some {
                assert(parts[0][0] == (member_key(key, "context_code"@), self.context_code.unwrap()@));
                lemma_part_in_concat(parts, 4, 0, (member_key(key, "context_code"@), self.context_code.unwrap()@));
            }
        }
        assert(self.force_new is Some ==> self.form_view(key).contains((member_key(key, "force_new"@), bool_text(self.force_new.unwrap())))) by {
            if self.force_new is Some {
                assert(parts[1][0] == (member_key(key, "force_new"@), bool_text(self.force_new.unwrap())));
                lemma_part_in_concat(parts, 4, 1, (member_key(key, "force_new"@), bool_text(self.force_new.unwrap())));
            }
        }
        assert(self.group_conversation is Some ==> self.form_view(key).contains((member_key(key, "group_conversation"@), bool_text(self.group_conversation.unwrap())))) by {
            if self.group_conversation is Some {
                assert(parts[2][0] == (member_key(key, "group_conversation"@), bool_text(self.group_conversation.unwrap())));
                lemma_part_in_concat(parts, 4, 2, (member_key(key, "group_conversation"@), bool_text(self.group_conversation.unwrap())));
            }
        }
        assert(self.subject is Some ==> self.form_view(key).contains((member_key(key, "subject"@), self.subject.unwrap()@))) by {
            if self.subject is Some {
                assert(parts[3][0] == (member_key(key, "subject"@), self.subject.unwrap()@));
                lemma_part_in_concat(parts, 4, 3, (member_key(key, "subject"@), self.subject.unwrap()@));
            }
        }
    }
}

impl Conversation {
    /// Update this conversation's workflow_state.
    ///
    /// `PUT /api/v1/conversations/:id`
    pub fn set_workflow_state(&self, state: &str) -> (r: Result<Request>)
        requires
            self.requester is Some,
        ensures
            self.requester.unwrap().sends_scoped(
                r,
                Method::Put,
                "conversations/"@ + dec(self.id as nat),
                PayloadView::Form(seq![("conversation[workflow_state]"@, state@)]),
                Scope::none(),
            ),
    {
        let form: Vec<(String, String)> = vec![("conversation[workflow_state]".to_owned(), state.to_owned())];
        assert(pairs_view(form@) =~= seq![("conversation[workflow_state]"@, state@)]);
        self.edit(form)
    }
}

} // verus!
