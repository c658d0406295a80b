use vstd::prelude::*;
use std::sync::Arc;
use crate::http::{share, Requester, Scope};
use crate::pagination::{lists, PageStream};
use crate::params::pairs_view;
use crate::text::{dec, push_u64};

verus! {

/// A Canvas collaboration (Google Docs, Etherpad, etc.).
#[derive(Debug)]
pub struct Collaboration {
    pub id: u64,
    pub collaboration_type: Option<String>,
    pub document_id: Option<String>,
    pub user_id: Option<u64>,
    pub context_id: Option<u64>,
    pub context_type: Option<String>,
    pub url: Option<String>,
    /// A time, as RFC 3339 text.
    pub created_at: Option<String>,
    /// A time, as RFC 3339 text.
    pub updated_at: Option<String>,
    pub description: Option<String>,
    pub title: Option<String>,
    pub user_name: Option<String>,
    pub requester: Option<Arc<Requester>>,
}

impl Collaboration {
    /// Takes in this Collaboration as fetched: it keeps `requester` for its own calls.
    pub fn adopt(&mut self, requester: Arc<Requester>, scope: &Scope)
        ensures
            final(self).requester == Some(requester),
            final(self).id == old(self).id,
            final(self).collaboration_type == old(self).collaboration_type,
            final(self).document_id == old(self).document_id,
            final(self).user_id == old(self).user_id,
            final(self).context_id == old(self).context_id,
            final(self).context_type == old(self).context_type,
            final(self).url == old(self).url,
            final(self).created_at == old(self).created_at,
            final(self).updated_at == old(self).updated_at,
            final(self).description == old(self).description,
            final(self).title == old(self).title,
            final(self).user_name == old(self).user_name,
    {
        self.requester = Some(requester);
    }

    fn req(&self) -> (r: &Arc<Requester>)
        requires
            self.requester is Some,
        ensures
            *r == self.requester.unwrap(),
    {
        self.requester.as_ref().unwrap()
    }

    /// List collaborators for this collaboration.
    ///
    /// # Canvas API
    /// `GET /api/v1/collaborations/:id/members`
    pub fn get_collaborators(&self) -> (s: PageStream<Collaborator>)
        requires
            self.requester is Some,
        ensures
            lists(s, *self.requester.unwrap(), self.requester.unwrap().base(), "collaborations/"@ + dec(self.id as nat) + "/members"@, seq![], Scope::none()),
    {
        let mut endpoint = String::new();
        endpoint.append("collaborations/");
        push_u64(&mut endpoint, self.id);
        endpoint.append("/members");
        assert(endpoint@ =~= "collaborations/"@ + dec(self.id as nat) + "/members"@);
        let form: Vec<(String, String)> = Vec::new();
        assert(pairs_view(form@) =~= seq![]);
        PageStream::new(share(self.req()), endpoint.as_str(), form).with_scope(Scope::empty())
    }
}

/// A user who is a member of a collaboration.
#[derive(Debug)]
pub struct Collaborator {
    pub id: u64,
    pub collaborator_type: Option<String>,
    pub name: Option<String>,
}

} // verus!
