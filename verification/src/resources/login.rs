use vstd::prelude::*;
use std::sync::Arc;
use crate::error::Result;
use crate::http::{scoped, share, Method, PayloadView, Request, Requester, Scope};
use crate::json::JsonValue;
use crate::pagination::{lists, PageStream};
use crate::params::pairs_view;
use crate::text::{dec, push_u64};

verus! {

/// A Canvas user login (pseudonym).
#[derive(Debug)]
pub struct Login {
    pub id: u64,
    pub account_id: Option<u64>,
    pub user_id: Option<u64>,
    pub workflow_state: Option<String>,
    pub unique_id: Option<String>,
    pub sis_user_id: Option<String>,
    pub integration_id: Option<String>,
    pub authentication_provider_id: Option<u64>,
    pub requester: Option<Arc<Requester>>,
}

impl Login {
    /// Takes in this Login as fetched: it keeps `requester` for its own calls.
    pub fn adopt(&mut self, requester: Arc<Requester>, scope: &Scope)
        ensures
            final(self).requester == Some(requester),
            final(self).id == old(self).id,
            final(self).account_id == old(self).account_id,
            final(self).user_id == old(self).user_id,
            final(self).workflow_state == old(self).workflow_state,
            final(self).unique_id == old(self).unique_id,
            final(self).sis_user_id == old(self).sis_user_id,
            final(self).integration_id == old(self).integration_id,
            final(self).authentication_provider_id == old(self).authentication_provider_id,
    {
        self.requester = Some(requester);
    }

    fn req(&self) -> (r: &Arc<Requester>)
        requires
            self.requester is Some,
        ensures
            *r == self.requester.unwrap(),
    {
        self.requester.as_ref().unwrap()
    }

    /// Update this login.
    ///
    /// # Canvas API
    /// `PUT /api/v1/accounts/:account_id/logins/:id`
    pub fn edit(&self, params: Vec<(String, String)>) -> (r: Result<Request>)
        requires
            self.requester is Some,
            self.account_id is Some,
        ensures
            self.requester.unwrap().sends_scoped(
                r,
                Method::Put,
                "accounts/"@ + dec(self.account_id.unwrap() as nat) + "/logins/"@ + dec(self.id as nat),
                PayloadView::Form(pairs_view(params@)),
                Scope::none(),
            ),
    {
        let mut endpoint = String::new();
        endpoint.append("accounts/");
        push_u64(&mut endpoint, self.account_id.unwrap());
        endpoint.append("/logins/");
        push_u64(&mut endpoint, self.id);
        assert(endpoint@ =~= "accounts/"@ + dec(self.account_id.unwrap() as nat) + "/logins/"@ + dec(self.id as nat));
        let form: Vec<(String, String)> = params;
        assert(pairs_view(form@) =~= pairs_view(params@));
        scoped(self.req().put(endpoint.as_str(), form), Scope::empty())
    }

    /// Delete this login.
    ///
    /// # Canvas API
    /// `DELETE /api/v1/users/:user_id/logins/:id`
    pub fn delete(&self) -> (r: Result<Request>)
        requires
            self.requester is Some,
            self.user_id is Some,
        ensures
            self.requester.unwrap().sends_scoped(
                r,
                Method::Delete,
                "users/"@ + dec(self.user_id.unwrap() as nat) + "/logins/"@ + dec(self.id as nat),
                PayloadView::Query(seq![]),
                Scope::none(),
            ),
    {
        let mut endpoint = String::new();
        endpoint.append("users/");
        push_u64(&mut endpoint, self.user_id.unwrap());
        endpoint.append("/logins/");
        push_u64(&mut endpoint, self.id);
        assert(endpoint@ =~= "users/"@ + dec(self.user_id.unwrap() as nat) + "/logins/"@ + dec(self.id as nat));
        let form: Vec<(String, String)> = Vec::new();
        assert(pairs_view(form@) =~= seq![]);
        scoped(self.req().delete(endpoint.as_str(), form), Scope::empty())
    }

    /// Stream authentication events for this login.
    ///
    /// # Canvas API
    /// `GET /api/v1/audit/authentication/logins/:id`
    pub fn get_authentication_events(&self) -> (s: PageStream<JsonValue>)
        requires
            self.requester is Some,
        ensures
            lists(s, *self.requester.unwrap(), self.requester.unwrap().base(), "audit/authentication/logins/"@ + dec(self.id as nat), seq![], Scope::none()),
    {
        let mut endpoint = String::new();
        endpoint.append("audit/authentication/logins/");
        push_u64(&mut endpoint, self.id);
        assert(endpoint@ =~= "audit/authentication/logins/"@ + dec(self.id as nat));
        let form: Vec<(String, String)> = Vec::new();
        assert(pairs_view(form@) =~= seq![]);
        PageStream::new(share(self.req()), endpoint.as_str(), form).with_scope(Scope::empty())
    }
}

} // verus!
