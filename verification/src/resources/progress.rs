use vstd::prelude::*;
use std::sync::Arc;
use crate::error::Result;
use crate::http::{scoped, Method, PayloadView, Request, Requester, Scope};
use crate::json::{get, JsonValue};
use crate::params::pairs_view;
use crate::text::{dec, push_u64};
use crate::resources::poll::Poll;

verus! {

/// A Canvas background job progress object.
///
/// Poll [`Progress::query()`] until `workflow_state` is `"completed"` or `"failed"`.
#[derive(Debug)]
pub struct Progress {
    pub id: u64,
    pub context_id: Option<u64>,
    pub context_type: Option<String>,
    pub user_id: Option<u64>,
    pub tag: Option<String>,
    /// A decimal, as the text `serde_json` prints for it (`10.0`, `2.5`).
    pub completion: Option<String>,
    pub workflow_state: Option<String>,
    /// A time, as RFC 3339 text.
    pub created_at: Option<String>,
    /// A time, as RFC 3339 text.
    pub updated_at: Option<String>,
    pub message: Option<String>,
    pub results: Option<JsonValue>,
    pub url: Option<String>,
    pub requester: Option<Arc<Requester>>,
}

impl Progress {
    /// Takes in this Progress as fetched: it keeps `requester` for its own calls.
    pub fn adopt(&mut self, requester: Arc<Requester>, scope: &Scope)
        ensures
            final(self).requester == Some(requester),
            final(self).id == old(self).id,
            final(self).context_id == old(self).context_id,
            final(self).context_type == old(self).context_type,
            final(self).user_id == old(self).user_id,
            final(self).tag == old(self).tag,
            final(self).completion == old(self).completion,
            final(self).workflow_state == old(self).workflow_state,
            final(self).created_at == old(self).created_at,
            final(self).updated_at == old(self).updated_at,
            final(self).message == old(self).message,
            final(self).results == old(self).results,
            final(self).url == old(self).url,
    {
        self.requester = Some(requester);
    }

    fn req(&self) -> (r: &Arc<Requester>)
        requires
            self.requester is Some,
        ensures
            *r == self.requester.unwrap(),
    {
        self.requester.as_ref().unwrap()
    }

    /// Fetch the latest state of this background job.
    ///
    /// # Canvas API
    /// `GET /api/v1/progress/:id`
    pub fn query(&self) -> (r: Result<Request>)
        requires
            self.requester is Some,
        ensures
            self.requester.unwrap().sends_scoped(
                r,
                Method::Get,
                "progress/"@ + dec(self.id as nat),
                PayloadView::Query(seq![]),
                Scope::none(),
            ),
    {
        let mut endpoint = String::new();
        endpoint.append("progress/");
        push_u64(&mut endpoint, self.id);
        assert(endpoint@ =~= "progress/"@ + dec(self.id as nat));
        let form: Vec<(String, String)> = Vec::new();
        assert(pairs_view(form@) =~= seq![]);
        scoped(self.req().get(endpoint.as_str(), form), Scope::empty())
    }
}

} // verus!
