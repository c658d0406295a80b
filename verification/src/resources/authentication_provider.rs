use vstd::prelude::*;
use std::sync::Arc;
use crate::error::Result;
use crate::http::{scoped, Method, PayloadView, Request, Requester, Scope};
use crate::params::pairs_view;
use crate::text::{dec, push_u64};

verus! {

/// An authentication provider configured for a Canvas account.
#[derive(Debug)]
pub struct AuthenticationProvider {
    pub id: Option<u64>,
    pub auth_type: Option<String>,
    pub position: Option<u64>,
    pub identifier_format: Option<String>,
    pub log_in_url: Option<String>,
    pub log_out_url: Option<String>,
    pub certificate_fingerprint: Option<String>,
    pub change_password_url: Option<String>,
    pub requested_authn_context: Option<String>,
    pub idp_entity_id: Option<String>,
    pub login_attribute: Option<String>,
    pub sig_alg: Option<String>,
    pub account_id: Option<u64>,
    pub requester: Option<Arc<Requester>>,
}

impl AuthenticationProvider {
    /// Takes in this AuthenticationProvider as fetched: it keeps `requester` for its own calls,
    /// and takes `account_id` from the scope where the scope sets it.
    pub fn adopt(&mut self, requester: Arc<Requester>, scope: &Scope)
        ensures
            final(self).requester == Some(requester),
            final(self).account_id == (match scope.account_id {
                Some(v) => v,
                None => old(self).account_id,
            }),
            final(self).id == old(self).id,
            final(self).auth_type == old(self).auth_type,
            final(self).position == old(self).position,
            final(self).identifier_format == old(self).identifier_format,
            final(self).log_in_url == old(self).log_in_url,
            final(self).log_out_url == old(self).log_out_url,
            final(self).certificate_fingerprint == old(self).certificate_fingerprint,
            final(self).change_password_url == old(self).change_password_url,
            final(self).requested_authn_context == old(self).requested_authn_context,
            final(self).idp_entity_id == old(self).idp_entity_id,
            final(self).login_attribute == old(self).login_attribute,
            final(self).sig_alg == old(self).sig_alg,
    {
        self.requester = Some(requester);
        if let Some(v) = scope.account_id {
            self.account_id = v;
        }
    }

    fn req(&self) -> (r: &Arc<Requester>)
        requires
            self.requester is Some,
        ensures
            *r == self.requester.unwrap(),
    {
        self.requester.as_ref().unwrap()
    }

    /// Delete this authentication provider.
    ///
    /// # Canvas API
    /// `DELETE /api/v1/accounts/:account_id/authentication_providers/:id`
    pub fn delete(&self) -> (r: Result<Request>)
        requires
            self.requester is Some,
            self.account_id is Some,
            self.id is Some,
        ensures
            self.requester.unwrap().sends_scoped(
                r,
                Method::Delete,
                "accounts/"@ + dec(self.account_id.unwrap() as nat) + "/authentication_providers/"@ + dec(self.id.unwrap() as nat),
                PayloadView::Query(seq![]),
                Scope::none(),
            ),
    {
        let mut endpoint = String::new();
        endpoint.append("accounts/");
        push_u64(&mut endpoint, self.account_id.unwrap());
        endpoint.append("/authentication_providers/");
        push_u64(&mut endpoint, self.id.unwrap());
        assert(endpoint@ =~= "accounts/"@ + dec(self.account_id.unwrap() as nat) + "/authentication_providers/"@ + dec(self.id.unwrap() as nat));
        let form: Vec<(String, String)> = Vec::new();
        assert(pairs_view(form@) =~= seq![]);
        scoped(self.req().delete(endpoint.as_str(), form), Scope::empty())
    }

    /// Update this authentication provider.
    ///
    /// # Canvas API
    /// `PUT /api/v1/accounts/:account_id/authentication_providers/:id`
    pub fn update(&self, params: Vec<(String, String)>) -> (r: Result<Request>)
        requires
            self.requester is Some,
            self.account_id is Some,
            self.id is Some,
        ensures
            self.requester.unwrap().sends_scoped(
                r,
                Method::Put,
                "accounts/"@ + dec(self.account_id.unwrap() as nat) + "/authentication_providers/"@ + dec(self.id.unwrap() as nat),
                PayloadView::Form(pairs_view(params@)),
                Scope { account_id: Some(self.account_id), ..Scope::none() },
            ),
    {
        let mut endpoint = String::new();
        endpoint.append("accounts/");
        push_u64(&mut endpoint, self.account_id.unwrap());
        endpoint.append("/authentication_providers/");
        push_u64(&mut endpoint, self.id.unwrap());
        assert(endpoint@ =~= "accounts/"@ + dec(self.account_id.unwrap() as nat) + "/authentication_providers/"@ + dec(self.id.unwrap() as nat));
        let form: Vec<(String, String)> = params;
        assert(pairs_view(form@) =~= pairs_view(params@));
        scoped(self.req().put(endpoint.as_str(), form), Scope { account_id: Some(self.account_id), ..Scope::empty() })
    }
}

} // verus!
