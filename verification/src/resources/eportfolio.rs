use vstd::prelude::*;
use std::sync::Arc;
use crate::error::Result;
use crate::http::{scoped, share, Method, PayloadView, Request, Requester, Scope};
use crate::pagination::{lists, PageStream};
use crate::params::pairs_view;
use crate::text::{dec, push_u64};

verus! {

#[derive(Debug)]
pub struct EPortfolioPage {
    pub id: u64,
    pub eportfolio_id: Option<u64>,
    pub position: Option<u64>,
    pub name: Option<String>,
    pub content: Option<String>,
    pub created_at: Option<String>,
    pub updated_at: Option<String>,
}

#[derive(Debug)]
pub struct EPortfolio {
    pub id: u64,
    pub user_id: Option<u64>,
    pub name: Option<String>,
    pub public: Option<bool>,
    pub created_at: Option<String>,
    pub updated_at: Option<String>,
    pub deleted_at: Option<String>,
    pub spam_status: Option<String>,
    pub requester: Option<Arc<Requester>>,
}

impl EPortfolio {
    /// Takes in this EPortfolio as fetched: it keeps `requester` for its own calls.
    pub fn adopt(&mut self, requester: Arc<Requester>, scope: &Scope)
        ensures
            final(self).requester == Some(requester),
            final(self).id == old(self).id,
            final(self).user_id == old(self).user_id,
            final(self).name == old(self).name,
            final(self).public == old(self).public,
            final(self).created_at == old(self).created_at,
            final(self).updated_at == old(self).updated_at,
            final(self).deleted_at == old(self).deleted_at,
            final(self).spam_status == old(self).spam_status,
    {
        self.requester = Some(requester);
    }

    fn req(&self) -> (r: &Arc<Requester>)
        requires
            self.requester is Some,
        ensures
            *r == self.requester.unwrap(),
    {
        self.requester.as_ref().unwrap()
    }

    /// Delete this ePortfolio.
    ///
    /// `DELETE /api/v1/eportfolios/:id`
    pub fn delete(&self) -> (r: Result<Request>)
        requires
            self.requester is Some,
        ensures
            self.requester.unwrap().sends_scoped(
                r,
                Method::Delete,
                "eportfolios/"@ + dec(self.id as nat),
                PayloadView::Query(seq![]),
                Scope::none(),
            ),
    {
        let mut endpoint = String::new();
        endpoint.append("eportfolios/");
        push_u64(&mut endpoint, self.id);
        assert(endpoint@ =~= "eportfolios/"@ + dec(self.id as nat));
        let form: Vec<(String, String)> = Vec::new();
        assert(pairs_view(form@) =~= seq![]);
        scoped(self.req().delete(endpoint.as_str(), form), Scope::empty())
    }

    /// List pages in this ePortfolio.
    ///
    /// `GET /api/v1/eportfolios/:eportfolio_id/pages`
    pub fn get_pages(&self) -> (s: PageStream<EPortfolioPage>)
        requires
            self.requester is Some,
        ensures
            lists(s, *self.requester.unwrap(), self.requester.unwrap().base(), "eportfolios/"@ + dec(self.id as nat) + "/pages"@, seq![], Scope::none()),
    {
        let mut endpoint = String::new();
        endpoint.append("eportfolios/");
        push_u64(&mut endpoint, self.id);
        endpoint.append("/pages");
        assert(endpoint@ =~= "eportfolios/"@ + dec(self.id as nat) + "/pages"@);
        let form: Vec<(String, String)> = Vec::new();
        assert(pairs_view(form@) =~= seq![]);
        PageStream::new(share(self.req()), endpoint.as_str(), form).with_scope(Scope::empty())
    }

    /// Update the spam_status of this ePortfolio (admin only).
    ///
    /// `PUT /api/v1/eportfolios/:eportfolio_id/moderate`
    pub fn moderate(&self, spam_status: &str) -> (r: Result<Request>)
        requires
            self.requester is Some,
        ensures
            self.requester.unwrap().sends_scoped(
                r,
                Method::Put,
                "eportfolios/"@ + dec(self.id as nat) + "/moderate"@,
                PayloadView::Form(seq![("spam_status"@, spam_status@)]),
                Scope::none(),
            ),
    {
        let mut endpoint = String::new();
        endpoint.append("eportfolios/");
        push_u64(&mut endpoint, self.id);
        endpoint.append("/moderate");
        assert(endpoint@ =~= "eportfolios/"@ + dec(self.id as nat) + "/moderate"@);
        let form: Vec<(String, String)> = vec![("spam_status".to_owned(), spam_status.to_owned())];
        assert(pairs_view(form@) =~= seq![("spam_status"@, spam_status@)]);
        scoped(self.req().put(endpoint.as_str(), form), Scope::empty())
    }

    /// Restore a deleted ePortfolio (admin only).
    ///
    /// `PUT /api/v1/eportfolios/:eportfolio_id/restore`
    pub fn restore(&self) -> (r: Result<Request>)
        requires
            self.requester is Some,
        ensures
            self.requester.unwrap().sends_scoped(
                r,
                Method::Put,
                "eportfolios/"@ + dec(self.id as nat) + "/restore"@,
                PayloadView::Form(seq![]),
                Scope::none(),
            ),
    {
        let mut endpoint = String::new();
        endpoint.append("eportfolios/");
        push_u64(&mut endpoint, self.id);
        endpoint.append("/restore");
        assert(endpoint@ =~= "eportfolios/"@ + dec(self.id as nat) + "/restore"@);
        let form: Vec<(String, String)> = Vec::new();
        assert(pairs_view(form@) =~= seq![]);
        scoped(self.req().put(endpoint.as_str(), form), Scope::empty())
    }
}

} // verus!
