use vstd::prelude::*;
use std::sync::Arc;
use crate::error::Result;
use crate::http::{scoped, share, Method, PayloadView, Request, Requester, Scope};
use crate::pagination::{lists, PageStream};
use crate::params::{
    add_bool_at, add_text_at, add_u64_at, bool_of, concat_upto, entry, lemma_part_in_concat,
    pairs_view, text_of, u64_of,
};
use crate::text::{bool_text, dec, push_u64, u64_to_text};
use crate::resources::file::File;

verus! {

/// Parameters for updating a Canvas folder.
#[derive(Debug, Default)]
pub struct UpdateFolderParams {
    pub name: Option<String>,
    pub parent_folder_id: Option<u64>,
    pub locked: Option<bool>,
    pub hidden: Option<bool>,
    pub position: Option<u64>,
}

impl UpdateFolderParams {
    /// The parameters these settings give at the top level: each member that
    /// is set under its own name, in the order of the member names.
    pub open spec fn flat_view(self) -> Seq<(Seq<char>, Seq<char>)> {
        entry("hidden"@, bool_of(self.hidden))
        + entry("locked"@, bool_of(self.locked))
        + entry("name"@, text_of(self.name))
        + entry("parent_folder_id"@, u64_of(self.parent_folder_id))
        + entry("position"@, u64_of(self.position))
    }

    /// The parameters these settings give at the top level (what flattening the
    /// settings object gives).
    pub fn to_flat(&self) -> (r: Vec<(String, String)>)
        ensures
            pairs_view(r@) == self.flat_view(),
    {
        let mut out: Vec<(String, String)> = Vec::new();
        add_bool_at(&mut out, "hidden", self.hidden);
        add_bool_at(&mut out, "locked", self.locked);
        add_text_at(&mut out, "name", &self.name);
        add_u64_at(&mut out, "parent_folder_id", self.parent_folder_id);
        add_u64_at(&mut out, "position", self.position);
        assert(pairs_view(out@) =~= self.flat_view());
        out
    }

    /// Every member of these settings that is set is sent under its own name,
    /// with its text (a boolean as `true`/`false`, a number in decimal).
    pub proof fn lemma_flat_sends_members(self)
        ensures
            self.hidden is Some ==> self.flat_view().contains(("hidden"@, bool_text(self.hidden.unwrap()))),
            self.locked is Some ==> self.flat_view().contains(("locked"@, bool_text(self.locked.unwrap()))),
            self.name is Some ==> self.flat_view().contains(("name"@, self.name.unwrap()@)),
            self.parent_folder_id is Some ==> self.flat_view().contains(("parent_folder_id"@, dec(self.parent_folder_id.unwrap() as nat))),
            self.position is Some ==> self.flat_view().contains(("position"@, dec(self.position.unwrap() as nat))),
    {
        let parts = seq![
            entry("hidden"@, bool_of(self.hidden)),
            entry("locked"@, bool_of(self.locked)),
            entry("name"@, text_of(self.name)),
            entry("parent_folder_id"@, u64_of(self.parent_folder_id)),
            entry("position"@, u64_of(self.position)),
        ];
        assert(self.flat_view() == concat_upto(parts, 5)) by {
            assert(concat_upto(parts, 0) == Seq::<(Seq<char>, Seq<char>)>::empty());
            assert(concat_upto(parts, 1) =~= parts[0]);
            assert(concat_upto(parts, 2) == concat_upto(parts, 1) + parts[1]);
            assert(concat_upto(parts, 3) == concat_upto(parts, 2) + parts[2]);
            assert(concat_upto(parts, 4) == concat_upto(parts, 3) + parts[3]);
            assert(concat_upto(parts, 5) == concat_upto(parts, 4) + parts[4]);
        }
        assert(self.hidden is Some ==> self.flat_view().contains(("hidden"@, bool_text(self.hidden.unwrap())))) by {
            if self.hidden is Some {
                assert(parts[0][0] == ("hidden"@, bool_text(self.hidden.unwrap())));
                lemma_part_in_concat(parts, 5, 0, ("hidden"@, bool_text(self.hidden.unwrap())));
            }
        }
        assert(self.locked is Some ==> self.flat_view().contains(("locked"@, bool_text(self.locked.unwrap())))) by {
            if self.locked is Some {
                assert(parts[1][0] == ("locked"@, bool_text(self.locked.unwrap())));
                lemma_part_in_concat(parts, 5, 1, ("locked"@, bool_text(self.locked.unwrap())));
            }
        }
        assert(self.name is Some ==> self.flat_view().contains(("name"@, self.name.unwrap()@))) by {
            if self.name is Some {
                assert(parts[2][0] == ("name"@, self.name.unwrap()@));
                lemma_part_in_concat(parts, 5, 2, ("name"@, self.name.unwrap()@));
            }
        }
        assert(self.parent_folder_id is Some ==> self.flat_view().contains(("parent_folder_id"@, dec(self.parent_folder_id.unwrap() as nat)))) by {
            if self.parent_folder_id is Some {
                assert(parts[3][0] == ("parent_folder_id"@, dec(self.parent_folder_id.unwrap() as nat)));
                lemma_part_in_concat(parts, 5, 3, ("parent_folder_id"@, dec(self.parent_folder_id.unwrap() as nat)));
            }
        }
        assert(self.position is Some ==> self.flat_view().contains(("position"@, dec(self.position.unwrap() as nat)))) by {
            if self.position is Some {
                assert(parts[4][0] == ("position"@, dec(self.position.unwrap() as nat)));
                lemma_part_in_concat(parts, 5, 4, ("position"@, dec(self.position.unwrap() as nat)));
            }
        }
    }
}

/// A folder in the Canvas file storage system.
#[derive(Debug)]
pub struct Folder {
    pub id: u64,
    pub name: Option<String>,
    pub full_name: Option<String>,
    pub context_id: Option<u64>,
    pub context_type: Option<String>,
    pub parent_folder_id: Option<u64>,
    /// A time, as RFC 3339 text.
    pub created_at: Option<String>,
    /// A time, as RFC 3339 text.
    pub updated_at: Option<String>,
    /// A time, as RFC 3339 text.
    pub lock_at: Option<String>,
    /// A time, as RFC 3339 text.
    pub unlock_at: Option<String>,
    pub position: Option<u64>,
    pub locked: Option<bool>,
    pub folders_url: Option<String>,
    pub files_url: Option<String>,
    pub files_count: Option<u64>,
    pub folders_count: Option<u64>,
    pub hidden: Option<bool>,
    pub locked_for_user: Option<bool>,
    pub hidden_for_user: Option<bool>,
    pub for_submissions: Option<bool>,
    pub can_upload: Option<bool>,
    pub requester: Option<Arc<Requester>>,
}

impl Folder {
    /// Takes in this Folder as fetched: it keeps `requester` for its own calls.
    pub fn adopt(&mut self, requester: Arc<Requester>, scope: &Scope)
        ensures
            final(self).requester == Some(requester),
            final(self).id == old(self).id,
            final(self).name == old(self).name,
            final(self).full_name == old(self).full_name,
            final(self).context_id == old(self).context_id,
            final(self).context_type == old(self).context_type,
            final(self).parent_folder_id == old(self).parent_folder_id,
            final(self).created_at == old(self).created_at,
            final(self).updated_at == old(self).updated_at,
            final(self).lock_at == old(self).lock_at,
            final(self).unlock_at == old(self).unlock_at,
            final(self).position == old(self).position,
            final(self).locked == old(self).locked,
            final(self).folders_url == old(self).folders_url,
            final(self).files_url == old(self).files_url,
            final(self).files_count == old(self).files_count,
            final(self).folders_count == old(self).folders_count,
            final(self).hidden == old(self).hidden,
            final(self).locked_for_user == old(self).locked_for_user,
            final(self).hidden_for_user == old(self).hidden_for_user,
            final(self).for_submissions == old(self).for_submissions,
            final(self).can_upload == old(self).can_upload,
    {
        self.requester = Some(requester);
    }

    fn req(&self) -> (r: &Arc<Requester>)
        requires
            self.requester is Some,
        ensures
            *r == self.requester.unwrap(),
    {
        self.requester.as_ref().unwrap()
    }

    /// Delete this folder.
    ///
    /// # Canvas API
    /// `DELETE /api/v1/folders/:id`
    pub fn delete(&self) -> (r: Result<Request>)
        requires
            self.requester is Some,
        ensures
            self.requester.unwrap().sends_scoped(
                r,
                Method::Delete,
                "folders/"@ + dec(self.id as nat),
                PayloadView::Query(seq![]),
                Scope::none(),
            ),
    {
        let mut endpoint = String::new();
        endpoint.append("folders/");
        push_u64(&mut endpoint, self.id);
        assert(endpoint@ =~= "folders/"@ + dec(self.id as nat));
        let form: Vec<(String, String)> = Vec::new();
        assert(pairs_view(form@) =~= seq![]);
        scoped(self.req().delete(endpoint.as_str(), form), Scope::empty())
    }

    /// Stream all files in this folder.
    ///
    /// # Canvas API
    /// `GET /api/v1/folders/:id/files`
    pub fn get_files(&self) -> (s: PageStream<File>)
        requires
            self.requester is Some,
        ensures
            lists(s, *self.requester.unwrap(), self.requester.unwrap().base(), "folders/"@ + dec(self.id as nat) + "/files"@, seq![], Scope::none()),
    {
        let mut endpoint = String::new();
        endpoint.append("folders/");
        push_u64(&mut endpoint, self.id);
        endpoint.append("/files");
        assert(endpoint@ =~= "folders/"@ + dec(self.id as nat) + "/files"@);
        let form: Vec<(String, String)> = Vec::new();
        assert(pairs_view(form@) =~= seq![]);
        PageStream::new(share(self.req()), endpoint.as_str(), form).with_scope(Scope::empty())
    }

    /// Stream all subfolders in this folder.
    ///
    /// # Canvas API
    /// `GET /api/v1/folders/:id/folders`
    pub fn get_folders(&self) -> (s: PageStream<Folder>)
        requires
            self.requester is Some,
        ensures
            lists(s, *self.requester.unwrap(), self.requester.unwrap().base(), "folders/"@ + dec(self.id as nat) + "/folders"@, seq![], Scope::none()),
    {
        let mut endpoint = String::new();
        endpoint.append("folders/");
        push_u64(&mut endpoint, self.id);
        endpoint.append("/folders");
        assert(endpoint@ =~= "folders/"@ + dec(self.id as nat) + "/folders"@);
        let form: Vec<(String, String)> = Vec::new();
        assert(pairs_view(form@) =~= seq![]);
        PageStream::new(share(self.req()), endpoint.as_str(), form).with_scope(Scope::empty())
    }

    /// Create a subfolder inside this folder.
    ///
    /// # Canvas API
    /// `POST /api/v1/folders/:id/folders`
    pub fn create_folder(&self, name: &str) -> (r: Result<Request>)
        requires
            self.requester is Some,
        ensures
            self.requester.unwrap().sends_scoped(
                r,
                Method::Post,
                "folders/"@ + dec(self.id as nat) + "/folders"@,
                PayloadView::Form(seq![("name"@, name@)]),
                Scope::none(),
            ),
    {
        let mut endpoint = String::new();
        endpoint.append("folders/");
        push_u64(&mut endpoint, self.id);
        endpoint.append("/folders");
        assert(endpoint@ =~= "folders/"@ + dec(self.id as nat) + "/folders"@);
        let form: Vec<(String, String)> = vec![("name".to_owned(), name.to_owned())];
        assert(pairs_view(form@) =~= seq![("name"@, name@)]);
        scoped(self.req().post(endpoint.as_str(), form), Scope::empty())
    }

    /// Copy a file into this folder.
    ///
    /// # Canvas API
    /// `POST /api/v1/folders/:dest_folder_id/copy_file`
    pub fn copy_file(&self, source_file_id: u64) -> (r: Result<Request>)
        requires
            self.requester is Some,
        ensures
            self.requester.unwrap().sends_scoped(
                r,
                Method::Post,
                "folders/"@ + dec(self.id as nat) + "/copy_file"@,
                PayloadView::Form(seq![("source_file_id"@, dec(source_file_id as nat))]),
                Scope::none(),
            ),
    {
        let mut endpoint = String::new();
        endpoint.append("folders/");
        push_u64(&mut endpoint, self.id);
        endpoint.append("/copy_file");
        assert(endpoint@ =~= "folders/"@ + dec(self.id as nat) + "/copy_file"@);
        let form: Vec<(String, String)> = vec![("source_file_id".to_owned(), u64_to_text(source_file_id))];
        assert(pairs_view(form@) =~= seq![("source_file_id"@, dec(source_file_id as nat))]);
        scoped(self.req().post(endpoint.as_str(), form), Scope::empty())
    }
}

impl Folder {
    /// Update this folder.
    ///
    /// # Canvas API
    /// `PUT /api/v1/folders/:id`
    pub fn update(&self, params: UpdateFolderParams) -> (r: Result<Request>)
        requires
            self.requester is Some,
        ensures
            self.requester.unwrap().sends_scoped(
                r,
                Method::Put,
                "folders/"@ + dec(self.id as nat),
                PayloadView::Form(params.flat_view()),
                Scope::none(),
            ),
    {
        let mut endpoint = "folders/".to_owned();
        push_u64(&mut endpoint, self.id);
        let form = params.to_flat();
        scoped(self.req().put(endpoint.as_str(), form), Scope::empty())
    }
}

} // verus!
