use vstd::prelude::*;
use std::sync::Arc;
use crate::error::Result;
use crate::http::{scoped, Method, PayloadView, Request, Requester, Scope};
use crate::params::{
    add_bool_at, add_text_at, add_u64_at, bool_of, concat_upto, entry, lemma_part_in_concat,
    pairs_view, text_of, u64_of,
};
use crate::text::{bool_text, dec, push_u64};

verus! {

/// Parameters for updating a Canvas file.
#[derive(Debug, Default)]
pub struct UpdateFileParams {
    pub name: Option<String>,
    pub parent_folder_id: Option<u64>,
    pub on_duplicate: Option<String>,
    pub locked: Option<bool>,
    pub hidden: Option<bool>,
}

impl UpdateFileParams {
    /// The parameters these settings give at the top level: each member that
    /// is set under its own name, in the order of the member names.
    pub open spec fn flat_view(self) -> Seq<(Seq<char>, Seq<char>)> {
        entry("hidden"@, bool_of(self.hidden))
        + entry("locked"@, bool_of(self.locked))
        + entry("name"@, text_of(self.name))
        + entry("on_duplicate"@, text_of(self.on_duplicate))
        + entry("parent_folder_id"@, u64_of(self.parent_folder_id))
    }

    /// The parameters these settings give at the top level (what flattening the
    /// settings object gives).
    pub fn to_flat(&self) -> (r: Vec<(String, String)>)
        ensures
            pairs_view(r@) == self.flat_view(),
    {
        let mut out: Vec<(String, String)> = Vec::new();
        add_bool_at(&mut out, "hidden", self.hidden);
        add_bool_at(&mut out, "locked", self.locked);
        add_text_at(&mut out, "name", &self.name);
        add_text_at(&mut out, "on_duplicate", &self.on_duplicate);
        add_u64_at(&mut out, "parent_folder_id", self.parent_folder_id);
        assert(pairs_view(out@) =~= self.flat_view());
        out
    }

    /// Every member of these settings that is set is sent under its own name,
    /// with its text (a boolean as `true`/`false`, a number in decimal).
    pub proof fn lemma_flat_sends_members(self)
        ensures
            self.hidden is Some ==> self.flat_view().contains(("hidden"@, bool_text(self.hidden.unwrap()))),
            self.locked is Some ==> self.flat_view().contains(("locked"@, bool_text(self.locked.unwrap()))),
            self.name is Some ==> self.flat_view().contains(("name"@, self.name.unwrap()@)),
            self.on_duplicate is Some ==> self.flat_view().contains(("on_duplicate"@, self.on_duplicate.unwrap()@)),
            self.parent_folder_id is Some ==> self.flat_view().contains(("parent_folder_id"@, dec(self.parent_folder_id.unwrap() as nat))),
    {
        let parts = seq![
            entry("hidden"@, bool_of(self.hidden)),
            entry("locked"@, bool_of(self.locked)),
            entry("name"@, text_of(self.name)),
            entry("on_duplicate"@, text_of(self.on_duplicate)),
            entry("parent_folder_id"@, u64_of(self.parent_folder_id)),
        ];
        assert(self.flat_view() == concat_upto(parts, 5)) by {
            assert(concat_upto(parts, 0) == Seq::<(Seq<char>, Seq<char>)>::empty());
            assert(concat_upto(parts, 1) =~= parts[0]);
            assert(concat_upto(parts, 2) == concat_upto(parts, 1) + parts[1]);
            assert(concat_upto(parts, 3) == concat_upto(parts, 2) + parts[2]);
            assert(concat_upto(parts, 4) == concat_upto(parts, 3) + parts[3]);
            assert(concat_upto(parts, 5) == concat_upto(parts, 4) + parts[4]);
        }
        assert(self.hidden is Some ==> self.flat_view().contains(("hidden"@, bool_text(self.hidden.unwrap())))) by {
            if self.hidden is Some {
                assert(parts[0][0] == ("hidden"@, bool_text(self.hidden.unwrap())));
                lemma_part_in_concat(parts, 5, 0, ("hidden"@, bool_text(self.hidden.unwrap())));
            }
        }
        assert(self.locked is Some ==> self.flat_view().contains(("locked"@, bool_text(self.locked.unwrap())))) by {
            if self.locked is Some {
                assert(parts[1][0] == ("locked"@, bool_text(self.locked.unwrap())));
                lemma_part_in_concat(parts, 5, 1, ("locked"@, bool_text(self.locked.unwrap())));
            }
        }
        assert(self.name is Some ==> self.flat_view().contains(("name"@, self.name.unwrap()@))) by {
            if self.name is Some {
                assert(parts[2][0] == ("name"@, self.name.unwrap()@));
                lemma_part_in_concat(parts, 5, 2, ("name"@, self.name.unwrap()@));
            }
        }
        assert(self.on_duplicate is Some ==> self.flat_view().contains(("on_duplicate"@, self.on_duplicate.unwrap()@))) by {
            if self.on_duplicate is Some {
                assert(parts[3][0] == ("on_duplicate"@, self.on_duplicate.unwrap()@));
                lemma_part_in_concat(parts, 5, 3, ("on_duplicate"@, self.on_duplicate.unwrap()@));
            }
        }
        assert(self.parent_folder_id is Some ==> self.flat_view().contains(("parent_folder_id"@, dec(self.parent_folder_id.unwrap() as nat)))) by {
            if self.parent_folder_id is Some {
                assert(parts[4][0] == ("parent_folder_id"@, dec(self.parent_folder_id.unwrap() as nat)));
                lemma_part_in_concat(parts, 5, 4, ("parent_folder_id"@, dec(self.parent_folder_id.unwrap() as nat)));
            }
        }
    }
}

/// A file stored in Canvas.
#[derive(Debug)]
pub struct File {
    pub id: u64,
    pub uuid: Option<String>,
    pub folder_id: Option<u64>,
    pub display_name: Option<String>,
    pub filename: Option<String>,
    pub content_type: Option<String>,
    pub url: Option<String>,
    pub size: Option<u64>,
    /// A time, as RFC 3339 text.
    pub created_at: Option<String>,
    /// A time, as RFC 3339 text.
    pub updated_at: Option<String>,
    /// A time, as RFC 3339 text.
    pub unlock_at: Option<String>,
    pub locked: Option<bool>,
    pub hidden: Option<bool>,
    /// A time, as RFC 3339 text.
    pub lock_at: Option<String>,
    pub hidden_for_user: Option<bool>,
    pub thumbnail_url: Option<String>,
    /// A time, as RFC 3339 text.
    pub modified_at: Option<String>,
    pub mime_class: Option<String>,
    pub media_entry_id: Option<String>,
    pub locked_for_user: Option<bool>,
    pub requester: Option<Arc<Requester>>,
}

impl File {
    /// Takes in this File as fetched: it keeps `requester` for its own calls.
    pub fn adopt(&mut self, requester: Arc<Requester>, scope: &Scope)
        ensures
            final(self).requester == Some(requester),
            final(self).id == old(self).id,
            final(self).uuid == old(self).uuid,
            final(self).folder_id == old(self).folder_id,
            final(self).display_name == old(self).display_name,
            final(self).filename == old(self).filename,
            final(self).content_type == old(self).content_type,
            final(self).url == old(self).url,
            final(self).size == old(self).size,
            final(self).created_at == old(self).created_at,
            final(self).updated_at == old(self).updated_at,
            final(self).unlock_at == old(self).unlock_at,
            final(self).locked == old(self).locked,
            final(self).hidden == old(self).hidden,
            final(self).lock_at == old(self).lock_at,
            final(self).hidden_for_user == old(self).hidden_for_user,
            final(self).thumbnail_url == old(self).thumbnail_url,
            final(self).modified_at == old(self).modified_at,
            final(self).mime_class == old(self).mime_class,
            final(self).media_entry_id == old(self).media_entry_id,
            final(self).locked_for_user == old(self).locked_for_user,
    {
        self.requester = Some(requester);
    }

    fn req(&self) -> (r: &Arc<Requester>)
        requires
            self.requester is Some,
        ensures
            *r == self.requester.unwrap(),
    {
        self.requester.as_ref().unwrap()
    }

    /// Delete this file.
    ///
    /// # Canvas API
    /// `DELETE /api/v1/files/:id`
    pub fn delete(&self) -> (r: Result<Request>)
        requires
            self.requester is Some,
        ensures
            self.requester.unwrap().sends_scoped(
                r,
                Method::Delete,
                "files/"@ + dec(self.id as nat),
                PayloadView::Query(seq![]),
                Scope::none(),
            ),
    {
        let mut endpoint = String::new();
        endpoint.append("files/");
        push_u64(&mut endpoint, self.id);
        assert(endpoint@ =~= "files/"@ + dec(self.id as nat));
        let form: Vec<(String, String)> = Vec::new();
        assert(pairs_view(form@) =~= seq![]);
        scoped(self.req().delete(endpoint.as_str(), form), Scope::empty())
    }
}

impl File {
    /// Update this file's name, folder or lock state.
    ///
    /// # Canvas API
    /// `PUT /api/v1/files/:id`
    pub fn update(&self, params: UpdateFileParams) -> (r: Result<Request>)
        requires
            self.requester is Some,
        ensures
            self.requester.unwrap().sends_scoped(
                r,
                Method::Put,
                "files/"@ + dec(self.id as nat),
                PayloadView::Form(params.flat_view()),
                Scope::none(),
            ),
    {
        let mut endpoint = "files/".to_owned();
        push_u64(&mut endpoint, self.id);
        let form = params.to_flat();
        scoped(self.req().put(endpoint.as_str(), form), Scope::empty())
    }
}

} // verus!
