use vstd::prelude::*;
use std::sync::Arc;
use crate::error::{bad_request, is_bad_request, Result};
use crate::http::{scoped, Method, PayloadView, Request, Requester, Scope};
use crate::json::JsonValue;
use crate::params::pairs_view;
use crate::text::{dec, push_u64};

verus! {

/// A Canvas bookmark saved by the current user.
#[derive(Debug)]
pub struct Bookmark {
    pub id: Option<u64>,
    pub name: Option<String>,
    pub url: Option<String>,
    pub position: Option<u64>,
    pub data: Option<JsonValue>,
    pub requester: Option<Arc<Requester>>,
}

impl Bookmark {
    /// Takes in this Bookmark as fetched: it keeps `requester` for its own calls.
    pub fn adopt(&mut self, requester: Arc<Requester>, scope: &Scope)
        ensures
            final(self).requester == Some(requester),
            final(self).id == old(self).id,
            final(self).name == old(self).name,
            final(self).url == old(self).url,
            final(self).position == old(self).position,
            final(self).data == old(self).data,
    {
        self.requester = Some(requester);
    }

    fn req(&self) -> (r: &Arc<Requester>)
        requires
            self.requester is Some,
        ensures
            *r == self.requester.unwrap(),
    {
        self.requester.as_ref().unwrap()
    }

    /// Update this bookmark.
    ///
    /// # Canvas API
    /// `PUT /api/v1/users/self/bookmarks/:id`
    pub fn edit(&self, params: Vec<(String, String)>) -> (r: Result<Request>)
        requires
            !(self.id is None) ==> self.requester is Some,
        ensures
            (self.id is None) ==> (r matches Err(e) && is_bad_request(e, "Bookmark has no id"@)),
            !(self.id is None) ==> self.requester.unwrap().sends_scoped(
                r,
                Method::Put,
                "users/self/bookmarks/"@ + dec(self.id.unwrap() as nat),
                PayloadView::Form(pairs_view(params@)),
                Scope::none(),
            ),
    {
        if self.id.is_none() {
            return Err(bad_request("Bookmark has no id"));
        }
        let mut endpoint = String::new();
        endpoint.append("users/self/bookmarks/");
        push_u64(&mut endpoint, self.id.unwrap());
        assert(endpoint@ =~= "users/self/bookmarks/"@ + dec(self.id.unwrap() as nat));
        let form: Vec<(String, String)> = params;
        assert(pairs_view(form@) =~= pairs_view(params@));
        scoped(self.req().put(endpoint.as_str(), form), Scope::empty())
    }

    /// Delete this bookmark.
    ///
    /// # Canvas API
    /// `DELETE /api/v1/users/self/bookmarks/:id`
    pub fn delete(&self) -> (r: Result<Request>)
        requires
            !(self.id is None) ==> self.requester is Some,
        ensures
            (self.id is None) ==> (r matches Err(e) && is_bad_request(e, "Bookmark has no id"@)),
            !(self.id is None) ==> self.requester.unwrap().sends_scoped(
                r,
                Method::Delete,
                "users/self/bookmarks/"@ + dec(self.id.unwrap() as nat),
                PayloadView::Query(seq![]),
                Scope::none(),
            ),
    {
        if self.id.is_none() {
            return Err(bad_request("Bookmark has no id"));
        }
        let mut endpoint = String::new();
        endpoint.append("users/self/bookmarks/");
        push_u64(&mut endpoint, self.id.unwrap());
        assert(endpoint@ =~= "users/self/bookmarks/"@ + dec(self.id.unwrap() as nat));
        let form: Vec<(String, String)> = Vec::new();
        assert(pairs_view(form@) =~= seq![]);
        scoped(self.req().delete(endpoint.as_str(), form), Scope::empty())
    }
}

} // verus!
