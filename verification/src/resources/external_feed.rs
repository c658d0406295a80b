use vstd::prelude::*;
use std::sync::Arc;
use crate::error::{bad_request, is_bad_request, Result};
use crate::http::{scoped, Method, PayloadView, Request, Requester, Scope};
use crate::params::pairs_view;
use crate::text::{dec, push_u64};

verus! {

/// An external RSS/Atom feed attached to a course or group.
#[derive(Debug)]
pub struct ExternalFeed {
    pub id: Option<u64>,
    pub display_name: Option<String>,
    pub url: Option<String>,
    pub header_match: Option<String>,
    pub verbosity: Option<String>,
    /// A time, as RFC 3339 text.
    pub created_at: Option<String>,
    pub requester: Option<Arc<Requester>>,
    pub context: Option<String>,
}

impl ExternalFeed {
    /// Takes in this ExternalFeed as fetched: it keeps `requester` for its own calls.
    pub fn adopt(&mut self, requester: Arc<Requester>, scope: &Scope)
        ensures
            final(self).requester == Some(requester),
            final(self).id == old(self).id,
            final(self).display_name == old(self).display_name,
            final(self).url == old(self).url,
            final(self).header_match == old(self).header_match,
            final(self).verbosity == old(self).verbosity,
            final(self).created_at == old(self).created_at,
            final(self).context == old(self).context,
    {
        self.requester = Some(requester);
    }

    fn req(&self) -> (r: &Arc<Requester>)
        requires
            self.requester is Some,
        ensures
            *r == self.requester.unwrap(),
    {
        self.requester.as_ref().unwrap()
    }
}

impl ExternalFeed {
    /// The path of the course or group the feed belongs to, or the message of
    /// the error when the feed does not know it.
    pub open spec fn prefix_view(&self) -> core::result::Result<Seq<char>, Seq<char>> {
        match self.context {
            Some(c) => Ok(c@),
            None => Err("ExternalFeed has no context"@),
        }
    }

    fn prefix(&self) -> (r: Result<String>)
        ensures
            match self.prefix_view() {
                Ok(p) => r matches Ok(s) && s@ == p,
                Err(m) => r matches Err(e) && is_bad_request(e, m),
            },
    {
        match &self.context {
            Some(c) => Ok(c.clone()),
            None => Err(bad_request("ExternalFeed has no context")),
        }
    }
}

impl ExternalFeed {
    /// Delete this external feed. A feed without id is refused first, then one
    /// that does not know its context, each without calling Canvas.
    ///
    /// # Canvas API
    /// `DELETE /api/v1/:context/external_feeds/:id`
    pub fn delete(&self) -> (r: Result<Request>)
        requires
            self.id is Some && self.prefix_view() is Ok ==> self.requester is Some,
        ensures
            self.id is None ==> (r matches Err(e) && is_bad_request(e, "ExternalFeed has no id"@)),
            self.id is Some && self.prefix_view() is Err ==> (r matches Err(e) && is_bad_request(
                e,
                self.prefix_view()->Err_0,
            )),
            self.id is Some && self.prefix_view() is Ok ==> self.requester.unwrap().sends_scoped(
                r,
                Method::Delete,
                self.prefix_view()->Ok_0 + "/external_feeds/"@ + dec(self.id.unwrap() as nat),
                PayloadView::Query(seq![]),
                Scope::none(),
            ),
    {
        let id = match self.id {
            Some(i) => i,
            None => return Err(bad_request("ExternalFeed has no id")),
        };
        let prefix = match self.prefix() {
            Ok(p) => p,
            Err(e) => return Err(e),
        };
        let mut endpoint = prefix;
        endpoint.append("/external_feeds/");
        push_u64(&mut endpoint, id);
        let form: Vec<(String, String)> = Vec::new();
        assert(pairs_view(form@) =~= seq![]);
        scoped(self.req().delete(endpoint.as_str(), form), Scope::empty())
    }

    /// Takes the context of `source`: the deleted feed that Canvas answers
    /// [`Self::delete`] with keeps the context of the feed it was deleted through.
    pub fn take_context(&mut self, source: &ExternalFeed)
        ensures
            final(self).context == source.context,
            final(self).requester == old(self).requester,
            final(self).id == old(self).id,
            final(self).display_name == old(self).display_name,
            final(self).url == old(self).url,
            final(self).header_match == old(self).header_match,
            final(self).verbosity == old(self).verbosity,
            final(self).created_at == old(self).created_at,
    {
        self.context = match &source.context {
            Some(c) => Some(c.clone()),
            None => None,
        };
    }
}

} // verus!
