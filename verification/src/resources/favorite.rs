use vstd::prelude::*;
use std::sync::Arc;
use crate::error::{bad_request, is_bad_request, Result};
use crate::http::{scoped, Method, PayloadView, Request, Requester, Scope};
use crate::params::pairs_view;
use crate::text::{dec, push_u64};

verus! {

/// A Canvas favorite (starred course or group).
#[derive(Debug)]
pub struct Favorite {
    pub context_id: Option<u64>,
    pub context_type: Option<String>,
    pub requester: Option<Arc<Requester>>,
}

impl Favorite {
    /// Takes in this Favorite as fetched: it keeps `requester` for its own calls.
    pub fn adopt(&mut self, requester: Arc<Requester>, scope: &Scope)
        ensures
            final(self).requester == Some(requester),
            final(self).context_id == old(self).context_id,
            final(self).context_type == old(self).context_type,
    {
        self.requester = Some(requester);
    }

    fn req(&self) -> (r: &Arc<Requester>)
        requires
            self.requester is Some,
        ensures
            *r == self.requester.unwrap(),
    {
        self.requester.as_ref().unwrap()
    }
}

impl Favorite {
    /// Remove this item from the current user's favorites. A favorite without
    /// context type is refused first, then one without context id, each without
    /// calling Canvas.
    ///
    /// # Canvas API
    /// `DELETE /api/v1/users/self/favorites/:context_type/:context_id`
    pub fn remove(&self) -> (r: Result<Request>)
        requires
            self.context_type is Some && self.context_id is Some ==> self.requester is Some,
        ensures
            self.context_type is None ==> (r matches Err(e) && is_bad_request(e, "Favorite has no context_type"@)),
            self.context_type is Some && self.context_id is None ==> (r matches Err(e) && is_bad_request(
                e,
                "Favorite has no context_id"@,
            )),
            self.context_type is Some && self.context_id is Some ==> self.requester.unwrap().sends_scoped(
                r,
                Method::Delete,
                "users/self/favorites/"@ + self.context_type.unwrap()@ + "/"@ + dec(self.context_id.unwrap() as nat),
                PayloadView::Query(seq![]),
                Scope::none(),
            ),
    {
        let context_type = match &self.context_type {
            Some(t) => t,
            None => return Err(bad_request("Favorite has no context_type")),
        };
        let context_id = match self.context_id {
            Some(i) => i,
            None => return Err(bad_request("Favorite has no context_id")),
        };
        let mut endpoint = "users/self/favorites/".to_owned();
        endpoint.append(context_type.as_str());
        endpoint.append("/");
        push_u64(&mut endpoint, context_id);
        let form: Vec<(String, String)> = Vec::new();
        assert(pairs_view(form@) =~= seq![]);
        scoped(self.req().delete(endpoint.as_str(), form), Scope::empty())
    }
}

} // verus!
