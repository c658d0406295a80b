use vstd::prelude::*;
use std::sync::Arc;
use crate::error::{bad_request, is_bad_request, Result};
use crate::http::{scoped, share, Method, PayloadView, Request, Requester, Scope};
use crate::json::get;
use crate::pagination::{lists, PageStream};
use crate::params::{
    add_bool, add_required_text, add_text, add_u64, bool_of, concat_upto, field,
    lemma_part_in_concat, member_key, pairs_view, text_of, u64_of,
};
use crate::text::{bool_text, dec, id_or, id_or_spec, push_u64, same_text};

verus! {

/// Parameters for creating or updating a Canvas module.
#[derive(Debug, Default)]
pub struct UpdateModuleParams {
    pub name: Option<String>,
    pub position: Option<u64>,
    /// A time, as RFC 3339 text.
    pub unlock_at: Option<String>,
    pub require_sequential_progress: Option<bool>,
    pub publish_final_grade: Option<bool>,
    pub published: Option<bool>,
}

impl UpdateModuleParams {
    /// The parameters these settings give under `key`: `key[member]` for each
    /// member that is set, in the order of the member names.
    pub open spec fn form_view(self, key: Seq<char>) -> Seq<(Seq<char>, Seq<char>)> {
        field(key, "name"@, text_of(self.name))
        + field(key, "position"@, u64_of(self.position))
        + field(key, "publish_final_grade"@, bool_of(self.publish_final_grade))
        + field(key, "published"@, bool_of(self.published))
        + field(key, "require_sequential_progress"@, bool_of(self.require_sequential_progress))
        + field(key, "unlock_at"@, text_of(self.unlock_at))
    }

    /// The parameters these settings give under `key` (what flattening
    /// `{key: settings}` gives).
    pub fn to_form(&self, key: &str) -> (r: Vec<(String, String)>)
        ensures
            pairs_view(r@) == self.form_view(key@),
    {
        let mut out: Vec<(String, String)> = Vec::new();
        add_text(&mut out, key, "name", &self.name);
        add_u64(&mut out, key, "position", self.position);
        add_bool(&mut out, key, "publish_final_grade", self.publish_final_grade);
        add_bool(&mut out, key, "published", self.published);
        add_bool(&mut out, key, "require_sequential_progress", self.require_sequential_progress);
        add_text(&mut out, key, "unlock_at", &self.unlock_at);
        assert(pairs_view(out@) =~= self.form_view(key@));
        out
    }

    /// Every member of these settings that is set is sent under `key[member]`,
    /// with its text (a boolean as `true`/`false`, a number in decimal).
    pub proof fn lemma_form_sends_members(self, key: Seq<char>)
        ensures
            self.name is Some ==> self.form_view(key).contains((member_key(key, "name"@), self.name.unwrap()@)),
            self.position is Some ==> self.form_view(key).contains((member_key(key, "position"@), dec(self.position.unwrap() as nat))),
            self.publish_final_grade is Some ==> self.form_view(key).contains((member_key(key, "publish_final_grade"@), bool_text(self.publish_final_grade.unwrap()))),
            self.published is Some ==> self.form_view(key).contains((member_key(key, "published"@), bool_text(self.published.unwrap()))),
            self.require_sequential_progress is Some ==> self.form_view(key).contains((member_key(key, "require_sequential_progress"@), bool_text(self.require_sequential_progress.unwrap()))),
            self.unlock_at is Some ==> self.form_view(key).contains((member_key(key, "unlock_at"@), self.unlock_at.unwrap()@)),
    {
        let parts = seq![
            field(key, "name"@, text_of(self.name)),
            field(key, "position"@, u64_of(self.position)),
            field(key, "publish_final_grade"@, bool_of(self.publish_final_grade)),
            field(key, "published"@, bool_of(self.published)),
            field(key, "require_sequential_progress"@, bool_of(self.require_sequential_progress)),
            field(key, "unlock_at"@, text_of(self.unlock_at)),
        ];
        assert(self.form_view(key) == concat_upto(parts, 6)) by {
            assert(concat_upto(parts, 0) == Seq::<(Seq<char>, Seq<char>)>::empty());
            assert(concat_upto(parts, 1) =~= parts[0]);
            assert(concat_upto(parts, 2) == concat_upto(parts, 1) + parts[1]);
            assert(concat_upto(parts, 3) == concat_upto(parts, 2) + parts[2]);
            assert(concat_upto(parts, 4) == concat_upto(parts, 3) + parts[3]);
            assert(concat_upto(parts, 5) == concat_upto(parts, 4) + parts[4]);
            assert(concat_upto(parts, 6) == concat_upto(parts, 5) + parts[5]);
        }
        assert(self.name is Some ==> self.form_view(key).contains((member_key(key, "name"@), self.name.unwrap()@))) by {
            if self.name is Some {
                assert(parts[0][0] == (member_key(key, "name"@), self.name.unwrap()@));
                lemma_part_in_concat(parts, 6, 0, (member_key(key, "name"@), self.name.unwrap()@));
            }
        }
        assert(self.position is Some ==> self.form_view(key).contains((member_key(key, "position"@), dec(self.position.unwrap() as nat)))) by {
            if self.position is Some {
                assert(parts[1][0] == (member_key(key, "position"@), dec(self.position.unwrap() as nat)));
                lemma_part_in_concat(parts, 6, 1, (member_key(key, "position"@), dec(self.position.unwrap() as nat)));
            }
        }
        assert(self.publish_final_grade is Some ==> self.form_view(key).contains((member_key(key, "publish_final_grade"@), bool_text(self.publish_final_grade.unwrap())))) by {
            if self.publish_final_grade is Some {
                assert(parts[2][0] == (member_key(key, "publish_final_grade"@), bool_text(self.publish_final_grade.unwrap())));
                lemma_part_in_concat(parts, 6, 2, (member_key(key, "publish_final_grade"@), bool_text(self.publish_final_grade.unwrap())));
            }
        }
        assert(self.published is Some ==> self.form_view(key).contains((member_key(key, "published"@), bool_text(self.published.unwrap())))) by {
            if self.published is Some {
                assert(parts[3][0] == (member_key(key, "published"@), bool_text(self.published.unwrap())));
                lemma_part_in_concat(parts, 6, 3, (member_key(key, "published"@), bool_text(self.published.unwrap())));
            }
        }
        assert(self.require_sequential_progress is Some ==> self.form_view(key).contains((member_key(key, "require_sequential_progress"@), bool_text(self.require_sequential_progress.unwrap())))) by {
            if self.require_sequential_progress is Some {
                assert(parts[4][0] == (member_key(key, "require_sequential_progress"@), bool_text(self.require_sequential_progress.unwrap())));
                lemma_part_in_concat(parts, 6, 4, (member_key(key, "require_sequential_progress"@), bool_text(self.require_sequential_progress.unwrap())));
            }
        }
        assert(self.unlock_at is Some ==> self.form_view(key).contains((member_key(key, "unlock_at"@), self.unlock_at.unwrap()@))) by {
            if self.unlock_at is Some {
                assert(parts[5][0] == (member_key(key, "unlock_at"@), self.unlock_at.unwrap()@));
                lemma_part_in_concat(parts, 6, 5, (member_key(key, "unlock_at"@), self.unlock_at.unwrap()@));
            }
        }
    }
}

/// Parameters for creating a module item.
#[derive(Debug)]
pub struct CreateModuleItemParams {
    pub item_type: String,
    pub content_id: Option<u64>,
    pub position: Option<u64>,
    pub indent: Option<u64>,
    pub page_url: Option<String>,
    pub external_url: Option<String>,
    pub new_tab: Option<bool>,
    pub published: Option<bool>,
}

impl CreateModuleItemParams {
    /// The parameters these settings give under `key`: `key[member]` for each
    /// member that is set, in the order of the member names.
    pub open spec fn form_view(self, key: Seq<char>) -> Seq<(Seq<char>, Seq<char>)> {
        field(key, "content_id"@, u64_of(self.content_id))
        + field(key, "external_url"@, text_of(self.external_url))
        + field(key, "indent"@, u64_of(self.indent))
        + field(key, "new_tab"@, bool_of(self.new_tab))
        + field(key, "page_url"@, text_of(self.page_url))
        + field(key, "position"@, u64_of(self.position))
        + field(key, "published"@, bool_of(self.published))
        + field(key, "type"@, Some(self.item_type@))
    }

    /// The parameters these settings give under `key` (what flattening
    /// `{key: settings}` gives).
    pub fn to_form(&self, key: &str) -> (r: Vec<(String, String)>)
        ensures
            pairs_view(r@) == self.form_view(key@),
    {
        let mut out: Vec<(String, String)> = Vec::new();
        add_u64(&mut out, key, "content_id", self.content_id);
        add_text(&mut out, key, "external_url", &self.external_url);
        add_u64(&mut out, key, "indent", self.indent);
        add_bool(&mut out, key, "new_tab", self.new_tab);
        add_text(&mut out, key, "page_url", &self.page_url);
        add_u64(&mut out, key, "position", self.position);
        add_bool(&mut out, key, "published", self.published);
        add_required_text(&mut out, key, "type", &self.item_type);
        assert(pairs_view(out@) =~= self.form_view(key@));
        out
    }

    /// Every member of these settings that is set is sent under `key[member]`,
    /// with its text (a boolean as `true`/`false`, a number in decimal).
    pub proof fn lemma_form_sends_members(self, key: Seq<char>)
        ensures
            self.content_id is Some ==> self.form_view(key).contains((member_key(key, "content_id"@), dec(self.content_id.unwrap() as nat))),
            self.external_url is Some ==> self.form_view(key).contains((member_key(key, "external_url"@), self.external_url.unwrap()@)),
            self.indent is Some ==> self.form_view(key).contains((member_key(key, "indent"@), dec(self.indent.unwrap() as nat))),
            self.new_tab is Some ==> self.form_view(key).contains((member_key(key, "new_tab"@), bool_text(self.new_tab.unwrap()))),
            self.page_url is Some ==> self.form_view(key).contains((member_key(key, "page_url"@), self.page_url.unwrap()@)),
            self.position is Some ==> self.form_view(key).contains((member_key(key, "position"@), dec(self.position.unwrap() as nat))),
            self.published is Some ==> self.form_view(key).contains((member_key(key, "published"@), bool_text(self.published.unwrap()))),
            self.form_view(key).contains((member_key(key, "type"@), self.item_type@)),
    {
        let parts = seq![
            field(key, "content_id"@, u64_of(self.content_id)),
            field(key, "external_url"@, text_of(self.external_url)),
            field(key, "indent"@, u64_of(self.indent)),
            field(key, "new_tab"@, bool_of(self.new_tab)),
            field(key, "page_url"@, text_of(self.page_url)),
            field(key, "position"@, u64_of(self.position)),
            field(key, "published"@, bool_of(self.published)),
            field(key, "type"@, Some(self.item_type@)),
        ];
        assert(self.form_view(key) == concat_upto(parts, 8)) by {
            assert(concat_upto(parts, 0) == Seq::<(Seq<char>, Seq<char>)>::empty());
            assert(concat_upto(parts, 1) =~= parts[0]);
            assert(concat_upto(parts, 2) == concat_upto(parts, 1) + parts[1]);
            assert(concat_upto(parts, 3) == concat_upto(parts, 2) + parts[2]);
            assert(concat_upto(parts, 4) == concat_upto(parts, 3) + parts[3]);
            assert(concat_upto(parts, 5) == concat_upto(parts, 4) + parts[4]);
            assert(concat_upto(parts, 6) == concat_upto(parts, 5) + parts[5]);
            assert(concat_upto(parts, 7) == concat_upto(parts, 6) + parts[6]);
            assert(concat_upto(parts, 8) == concat_upto(parts, 7) + parts[7]);
        }
        assert(self.content_id is Some ==> self.form_view(key).contains((member_key(key, "content_id"@), dec(self.content_id.unwrap() as nat)))) by {
            if self.content_id is Some {
                assert(parts[0][0] == (member_key(key, "content_id"@), dec(self.content_id.unwrap() as nat)));
                lemma_part_in_concat(parts, 8, 0, (member_key(key, "content_id"@), dec(self.content_id.unwrap() as nat)));
            }
        }
        assert(self.external_url is Some ==> self.form_view(key).contains((member_key(key, "external_url"@), self.external_url.unwrap()@))) by {
            if self.external_url is Some {
                assert(parts[1][0] == (member_key(key, "external_url"@), self.external_url.unwrap()@));
                lemma_part_in_concat(parts, 8, 1, (member_key(key, "external_url"@), self.external_url.unwrap()@));
            }
        }
        assert(self.indent is Some ==> self.form_view(key).contains((member_key(key, "indent"@), dec(self.indent.unwrap() as nat)))) by {
            if self.indent is Some {
                assert(parts[2][0] == (member_key(key, "indent"@), dec(self.indent.unwrap() as nat)));
                lemma_part_in_concat(parts, 8, 2, (member_key(key, "indent"@), dec(self.indent.unwrap() as nat)));
            }
        }
        assert(self.new_tab is Some ==> self.form_view(key).contains((member_key(key, "new_tab"@), bool_text(self.new_tab.unwrap())))) by {
            if self.new_tab is Some {
                assert(parts[3][0] == (member_key(key, "new_tab"@), bool_text(self.new_tab.unwrap())));
                lemma_part_in_concat(parts, 8, 3, (member_key(key, "new_tab"@), bool_text(self.new_tab.unwrap())));
            }
        }
        assert(self.page_url is Some ==> self.form_view(key).contains((member_key(key, "page_url"@), self.page_url.unwrap()@))) by {
            if self.page_url is Some {
                assert(parts[4][0] == (member_key(key, "page_url"@), self.page_url.unwrap()@));
                lemma_part_in_concat(parts, 8, 4, (member_key(key, "page_url"@), self.page_url.unwrap()@));
            }
        }
        assert(self.position is Some ==> self.form_view(key).contains((member_key(key, "position"@), dec(self.position.unwrap() as nat)))) by {
            if self.position is Some {
                assert(parts[5][0] == (member_key(key, "position"@), dec(self.position.unwrap() as nat)));
                lemma_part_in_concat(parts, 8, 5, (member_key(key, "position"@), dec(self.position.unwrap() as nat)));
            }
        }
        assert(self.published is Some ==> self.form_view(key).contains((member_key(key, "published"@), bool_text(self.published.unwrap())))) by {
            if self.published is Some {
                assert(parts[6][0] == (member_key(key, "published"@), bool_text(self.published.unwrap())));
                lemma_part_in_concat(parts, 8, 6, (member_key(key, "published"@), bool_text(self.published.unwrap())));
            }
        }
        assert(self.form_view(key).contains((member_key(key, "type"@), self.item_type@))) by {
            assert(parts[7][0] == (member_key(key, "type"@), self.item_type@));
            lemma_part_in_concat(parts, 8, 7, (member_key(key, "type"@), self.item_type@));
        }
    }
}

/// Parameters for updating a module item.
#[derive(Debug, Default)]
pub struct UpdateModuleItemParams {
    pub title: Option<String>,
    pub position: Option<u64>,
    pub indent: Option<u64>,
    pub external_url: Option<String>,
    pub new_tab: Option<bool>,
    pub published: Option<bool>,
}

impl UpdateModuleItemParams {
    /// The parameters these settings give under `key`: `key[member]` for each
    /// member that is set, in the order of the member names.
    pub open spec fn form_view(self, key: Seq<char>) -> Seq<(Seq<char>, Seq<char>)> {
        field(key, "external_url"@, text_of(self.external_url))
        + field(key, "indent"@, u64_of(self.indent))
        + field(key, "new_tab"@, bool_of(self.new_tab))
        + field(key, "position"@, u64_of(self.position))
        + field(key, "published"@, bool_of(self.published))
        + field(key, "title"@, text_of(self.title))
    }

    /// The parameters these settings give under `key` (what flattening
    /// `{key: settings}` gives).
    pub fn to_form(&self, key: &str) -> (r: Vec<(String, String)>)
        ensures
            pairs_view(r@) == self.form_view(key@),
    {
        let mut out: Vec<(String, String)> = Vec::new();
        add_text(&mut out, key, "external_url", &self.external_url);
        add_u64(&mut out, key, "indent", self.indent);
        add_bool(&mut out, key, "new_tab", self.new_tab);
        add_u64(&mut out, key, "position", self.position);
        add_bool(&mut out, key, "published", self.published);
        add_text(&mut out, key, "title", &self.title);
        assert(pairs_view(out@) =~= self.form_view(key@));
        out
    }

    /// Every member of these settings that is set is sent under `key[member]`,
    /// with its text (a boolean as `true`/`false`, a number in decimal).
    pub proof fn lemma_form_sends_members(self, key: Seq<char>)
        ensures
            self.external_url is Some ==> self.form_view(key).contains((member_key(key, "external_url"@), self.external_url.unwrap()@)),
            self.indent is Some ==> self.form_view(key).contains((member_key(key, "indent"@), dec(self.indent.unwrap() as nat))),
            self.new_tab is Some ==> self.form_view(key).contains((member_key(key, "new_tab"@), bool_text(self.new_tab.unwrap()))),
            self.position is Some ==> self.form_view(key).contains((member_key(key, "position"@), dec(self.position.unwrap() as nat))),
            self.published is Some ==> self.form_view(key).contains((member_key(key, "published"@), bool_text(self.published.unwrap()))),
            self.title is Some ==> self.form_view(key).contains((member_key(key, "title"@), self.title.unwrap()@)),
    {
        let parts = seq![
            field(key, "external_url"@, text_of(self.external_url)),
            field(key, "indent"@, u64_of(self.indent)),
            field(key, "new_tab"@, bool_of(self.new_tab)),
            field(key, "position"@, u64_of(self.position)),
            field(key, "published"@, bool_of(self.published)),
            field(key, "title"@, text_of(self.title)),
        ];
        assert(self.form_view(key) == concat_upto(parts, 6)) by {
            assert(concat_upto(parts, 0) == Seq::<(Seq<char>, Seq<char>)>::empty());
            assert(concat_upto(parts, 1) =~= parts[0]);
            assert(concat_upto(parts, 2) == concat_upto(parts, 1) + parts[1]);
            assert(concat_upto(parts, 3) == concat_upto(parts, 2) + parts[2]);
            assert(concat_upto(parts, 4) == concat_upto(parts, 3) + parts[3]);
            assert(concat_upto(parts, 5) == concat_upto(parts, 4) + parts[4]);
            assert(concat_upto(parts, 6) == concat_upto(parts, 5) + parts[5]);
        }
        assert(self.external_url is Some ==> self.form_view(key).contains((member_key(key, "external_url"@), self.external_url.unwrap()@))) by {
            if self.external_url is Some {
                assert(parts[0][0] == (member_key(key, "external_url"@), self.external_url.unwrap()@));
                lemma_part_in_concat(parts, 6, 0, (member_key(key, "external_url"@), self.external_url.unwrap()@));
            }
        }
        assert(self.indent is Some ==> self.form_view(key).contains((member_key(key, "indent"@), dec(self.indent.unwrap() as nat)))) by {
            if self.indent is Some {
                assert(parts[1][0] == (member_key(key, "indent"@), dec(self.indent.unwrap() as nat)));
                lemma_part_in_concat(parts, 6, 1, (member_key(key, "indent"@), dec(self.indent.unwrap() as nat)));
            }
        }
        assert(self.new_tab is Some ==> self.form_view(key).contains((member_key(key, "new_tab"@), bool_text(self.new_tab.unwrap())))) by {
            if self.new_tab is Some {
                assert(parts[2][0] == (member_key(key, "new_tab"@), bool_text(self.new_tab.unwrap())));
                lemma_part_in_concat(parts, 6, 2, (member_key(key, "new_tab"@), bool_text(self.new_tab.unwrap())));
            }
        }
        assert(self.position is Some ==> self.form_view(key).contains((member_key(key, "position"@), dec(self.position.unwrap() as nat)))) by {
            if self.position is Some {
                assert(parts[3][0] == (member_key(key, "position"@), dec(self.position.unwrap() as nat)));
                lemma_part_in_concat(parts, 6, 3, (member_key(key, "position"@), dec(self.position.unwrap() as nat)));
            }
        }
        assert(self.published is Some ==> self.form_view(key).contains((member_key(key, "published"@), bool_text(self.published.unwrap())))) by {
            if self.published is Some {
                assert(parts[4][0] == (member_key(key, "published"@), bool_text(self.published.unwrap())));
                lemma_part_in_concat(parts, 6, 4, (member_key(key, "published"@), bool_text(self.published.unwrap())));
            }
        }
        assert(self.title is Some ==> self.form_view(key).contains((member_key(key, "title"@), self.title.unwrap()@))) by {
            if self.title is Some {
                assert(parts[5][0] == (member_key(key, "title"@), self.title.unwrap()@));
                lemma_part_in_concat(parts, 6, 5, (member_key(key, "title"@), self.title.unwrap()@));
            }
        }
    }
}

/// A Canvas course module (a collection of ordered content items).
#[derive(Debug)]
pub struct Module {
    pub id: u64,
    pub course_id: Option<u64>,
    pub name: Option<String>,
    pub position: Option<u64>,
    /// A time, as RFC 3339 text.
    pub unlock_at: Option<String>,
    pub require_sequential_progress: Option<bool>,
    pub prerequisite_module_ids: Option<Vec<u64>>,
    pub items_count: Option<u64>,
    pub items_url: Option<String>,
    pub state: Option<String>,
    /// A time, as RFC 3339 text.
    pub completed_at: Option<String>,
    pub publish_final_grade: Option<bool>,
    pub published: Option<bool>,
    pub requester: Option<Arc<Requester>>,
}

impl Module {
    /// Takes in this Module as fetched: it keeps `requester` for its own calls,
    /// and takes `course_id` from the scope where the scope sets it.
    pub fn adopt(&mut self, requester: Arc<Requester>, scope: &Scope)
        ensures
            final(self).requester == Some(requester),
            final(self).course_id == (match scope.course_id {
                Some(v) => v,
                None => old(self).course_id,
            }),
            final(self).id == old(self).id,
            final(self).name == old(self).name,
            final(self).position == old(self).position,
            final(self).unlock_at == old(self).unlock_at,
            final(self).require_sequential_progress == old(self).require_sequential_progress,
            final(self).prerequisite_module_ids == old(self).prerequisite_module_ids,
            final(self).items_count == old(self).items_count,
            final(self).items_url == old(self).items_url,
            final(self).state == old(self).state,
            final(self).completed_at == old(self).completed_at,
            final(self).publish_final_grade == old(self).publish_final_grade,
            final(self).published == old(self).published,
    {
        self.requester = Some(requester);
        if let Some(v) = scope.course_id {
            self.course_id = v;
        }
    }

    fn req(&self) -> (r: &Arc<Requester>)
        requires
            self.requester is Some,
        ensures
            *r == self.requester.unwrap(),
    {
        self.requester.as_ref().unwrap()
    }

    /// Edit this module's settings.
    ///
    /// # Canvas API
    /// `PUT /api/v1/courses/:course_id/modules/:id`
    pub fn edit(&self, params: UpdateModuleParams) -> (r: Result<Request>)
        requires
            !(self.course_id is None) ==> self.requester is Some,
        ensures
            (self.course_id is None) ==> (r matches Err(e) && is_bad_request(e, "Module does not have a course_id"@)),
            !(self.course_id is None) ==> self.requester.unwrap().sends_scoped(
                r,
                Method::Put,
                "courses/"@ + dec(self.course_id.unwrap() as nat) + "/modules/"@ + dec(self.id as nat),
                PayloadView::Form(params.form_view("module"@)),
                Scope { course_id: Some(self.course_id), ..Scope::none() },
            ),
    {
        if self.course_id.is_none() {
            return Err(bad_request("Module does not have a course_id"));
        }
        let mut endpoint = String::new();
        endpoint.append("courses/");
        push_u64(&mut endpoint, self.course_id.unwrap());
        endpoint.append("/modules/");
        push_u64(&mut endpoint, self.id);
        assert(endpoint@ =~= "courses/"@ + dec(self.course_id.unwrap() as nat) + "/modules/"@ + dec(self.id as nat));
        let form: Vec<(String, String)> = params.to_form("module");
        assert(pairs_view(form@) =~= params.form_view("module"@));
        scoped(self.req().put(endpoint.as_str(), form), Scope { course_id: Some(self.course_id), ..Scope::empty() })
    }

    /// Delete this module.
    ///
    /// # Canvas API
    /// `DELETE /api/v1/courses/:course_id/modules/:id`
    pub fn delete(&self) -> (r: Result<Request>)
        requires
            !(self.course_id is None) ==> self.requester is Some,
        ensures
            (self.course_id is None) ==> (r matches Err(e) && is_bad_request(e, "Module does not have a course_id"@)),
            !(self.course_id is None) ==> self.requester.unwrap().sends_scoped(
                r,
                Method::Delete,
                "courses/"@ + dec(self.course_id.unwrap() as nat) + "/modules/"@ + dec(self.id as nat),
                PayloadView::Query(seq![]),
                Scope { course_id: Some(self.course_id), ..Scope::none() },
            ),
    {
        if self.course_id.is_none() {
            return Err(bad_request("Module does not have a course_id"));
        }
        let mut endpoint = String::new();
        endpoint.append("courses/");
        push_u64(&mut endpoint, self.course_id.unwrap());
        endpoint.append("/modules/");
        push_u64(&mut endpoint, self.id);
        assert(endpoint@ =~= "courses/"@ + dec(self.course_id.unwrap() as nat) + "/modules/"@ + dec(self.id as nat));
        let form: Vec<(String, String)> = Vec::new();
        assert(pairs_view(form@) =~= seq![]);
        scoped(self.req().delete(endpoint.as_str(), form), Scope { course_id: Some(self.course_id), ..Scope::empty() })
    }

    /// Re-lock this module's progressions.
    ///
    /// # Canvas API
    /// `PUT /api/v1/courses/:course_id/modules/:id/relock`
    pub fn relock(&self) -> (r: Result<Request>)
        requires
            !(self.course_id is None) ==> self.requester is Some,
        ensures
            (self.course_id is None) ==> (r matches Err(e) && is_bad_request(e, "Module does not have a course_id"@)),
            !(self.course_id is None) ==> self.requester.unwrap().sends_scoped(
                r,
                Method::Put,
                "courses/"@ + dec(self.course_id.unwrap() as nat) + "/modules/"@ + dec(self.id as nat) + "/relock"@,
                PayloadView::Form(seq![]),
                Scope { course_id: Some(self.course_id), ..Scope::none() },
            ),
    {
        if self.course_id.is_none() {
            return Err(bad_request("Module does not have a course_id"));
        }
        let mut endpoint = String::new();
        endpoint.append("courses/");
        push_u64(&mut endpoint, self.course_id.unwrap());
        endpoint.append("/modules/");
        push_u64(&mut endpoint, self.id);
        endpoint.append("/relock");
        assert(endpoint@ =~= "courses/"@ + dec(self.course_id.unwrap() as nat) + "/modules/"@ + dec(self.id as nat) + "/relock"@);
        let form: Vec<(String, String)> = Vec::new();
        assert(pairs_view(form@) =~= seq![]);
        scoped(self.req().put(endpoint.as_str(), form), Scope { course_id: Some(self.course_id), ..Scope::empty() })
    }

    /// Stream all items in this module.
    ///
    /// # Canvas API
    /// `GET /api/v1/courses/:course_id/modules/:id/items`
    pub fn get_module_items(&self) -> (s: PageStream<ModuleItem>)
        requires
            self.requester is Some,
        ensures
            lists(s, *self.requester.unwrap(), self.requester.unwrap().base(), "courses/"@ + dec(id_or_spec(self.course_id, 0) as nat) + "/modules/"@ + dec(self.id as nat) + "/items"@, seq![], Scope { course_id: Some(Some(id_or_spec(self.course_id, 0))), module_id: Some(Some(self.id)), ..Scope::none() }),
    {
        let mut endpoint = String::new();
        endpoint.append("courses/");
        push_u64(&mut endpoint, id_or(self.course_id, 0));
        endpoint.append("/modules/");
        push_u64(&mut endpoint, self.id);
        endpoint.append("/items");
        assert(endpoint@ =~= "courses/"@ + dec(id_or_spec(self.course_id, 0) as nat) + "/modules/"@ + dec(self.id as nat) + "/items"@);
        let form: Vec<(String, String)> = Vec::new();
        assert(pairs_view(form@) =~= seq![]);
        PageStream::new(share(self.req()), endpoint.as_str(), form).with_scope(Scope { course_id: Some(Some(id_or(self.course_id, 0))), module_id: Some(Some(self.id)), ..Scope::empty() })
    }

    /// Fetch a single module item by ID.
    ///
    /// # Canvas API
    /// `GET /api/v1/courses/:course_id/modules/:id/items/:item_id`
    pub fn get_module_item(&self, item_id: u64) -> (r: Result<Request>)
        requires
            !(self.course_id is None) ==> self.requester is Some,
        ensures
            (self.course_id is None) ==> (r matches Err(e) && is_bad_request(e, "Module does not have a course_id"@)),
            !(self.course_id is None) ==> self.requester.unwrap().sends_scoped(
                r,
                Method::Get,
                "courses/"@ + dec(self.course_id.unwrap() as nat) + "/modules/"@ + dec(self.id as nat) + "/items/"@ + dec(item_id as nat),
                PayloadView::Query(seq![]),
                Scope { course_id: Some(self.course_id), module_id: Some(Some(self.id)), ..Scope::none() },
            ),
    {
        if self.course_id.is_none() {
            return Err(bad_request("Module does not have a course_id"));
        }
        let mut endpoint = String::new();
        endpoint.append("courses/");
        push_u64(&mut endpoint, self.course_id.unwrap());
        endpoint.append("/modules/");
        push_u64(&mut endpoint, self.id);
        endpoint.append("/items/");
        push_u64(&mut endpoint, item_id);
        assert(endpoint@ =~= "courses/"@ + dec(self.course_id.unwrap() as nat) + "/modules/"@ + dec(self.id as nat) + "/items/"@ + dec(item_id as nat));
        let form: Vec<(String, String)> = Vec::new();
        assert(pairs_view(form@) =~= seq![]);
        scoped(self.req().get(endpoint.as_str(), form), Scope { course_id: Some(self.course_id), module_id: Some(Some(self.id)), ..Scope::empty() })
    }
}

/// An individual item within a Canvas module.
#[derive(Debug)]
pub struct ModuleItem {
    pub id: u64,
    pub module_id: Option<u64>,
    pub position: Option<u64>,
    pub title: Option<String>,
    pub indent: Option<u64>,
    pub item_type: Option<String>,
    pub content_id: Option<u64>,
    pub html_url: Option<String>,
    pub url: Option<String>,
    pub page_url: Option<String>,
    pub external_url: Option<String>,
    pub completion_requirement: Option<CompletionRequirement>,
    pub published: Option<bool>,
    pub requester: Option<Arc<Requester>>,
    pub course_id: Option<u64>,
}

impl ModuleItem {
    /// Takes in this ModuleItem as fetched: it keeps `requester` for its own calls,
    /// and takes `course_id`, `module_id` from the scope where the scope sets them.
    pub fn adopt(&mut self, requester: Arc<Requester>, scope: &Scope)
        ensures
            final(self).requester == Some(requester),
            final(self).module_id == (match scope.module_id {
                Some(v) => v,
                None => old(self).module_id,
            }),
            final(self).course_id == (match scope.course_id {
                Some(v) => v,
                None => old(self).course_id,
            }),
            final(self).id == old(self).id,
            final(self).position == old(self).position,
            final(self).title == old(self).title,
            final(self).indent == old(self).indent,
            final(self).item_type == old(self).item_type,
            final(self).content_id == old(self).content_id,
            final(self).html_url == old(self).html_url,
            final(self).url == old(self).url,
            final(self).page_url == old(self).page_url,
            final(self).external_url == old(self).external_url,
            final(self).completion_requirement == old(self).completion_requirement,
            final(self).published == old(self).published,
    {
        self.requester = Some(requester);
        if let Some(v) = scope.module_id {
            self.module_id = v;
        }
        if let Some(v) = scope.course_id {
            self.course_id = v;
        }
    }

    fn req(&self) -> (r: &Arc<Requester>)
        requires
            self.requester is Some,
        ensures
            *r == self.requester.unwrap(),
    {
        self.requester.as_ref().unwrap()
    }

    /// Edit this module item.
    ///
    /// # Canvas API
    /// `PUT /api/v1/courses/:course_id/modules/:module_id/items/:id`
    pub fn edit(&self, params: UpdateModuleItemParams) -> (r: Result<Request>)
        requires
            !(self.course_id is None) && !(self.module_id is None) ==> self.requester is Some,
        ensures
            (self.course_id is None) ==> (r matches Err(e) && is_bad_request(e, "ModuleItem does not have a course_id"@)),
            !(self.course_id is None) && (self.module_id is None) ==> (r matches Err(e) && is_bad_request(e, "ModuleItem does not have a module_id"@)),
            !(self.course_id is None) && !(self.module_id is None) ==> self.requester.unwrap().sends_scoped(
                r,
                Method::Put,
                "courses/"@ + dec(self.course_id.unwrap() as nat) + "/modules/"@ + dec(self.module_id.unwrap() as nat) + "/items/"@ + dec(self.id as nat),
                PayloadView::Form(params.form_view("module_item"@)),
                Scope { course_id: Some(self.course_id), module_id: Some(self.module_id), ..Scope::none() },
            ),
    {
        if self.course_id.is_none() {
            return Err(bad_request("ModuleItem does not have a course_id"));
        }
        if self.module_id.is_none() {
            return Err(bad_request("ModuleItem does not have a module_id"));
        }
        let mut endpoint = String::new();
        endpoint.append("courses/");
        push_u64(&mut endpoint, self.course_id.unwrap());
        endpoint.append("/modules/");
        push_u64(&mut endpoint, self.module_id.unwrap());
        endpoint.append("/items/");
        push_u64(&mut endpoint, self.id);
        assert(endpoint@ =~= "courses/"@ + dec(self.course_id.unwrap() as nat) + "/modules/"@ + dec(self.module_id.unwrap() as nat) + "/items/"@ + dec(self.id as nat));
        let form: Vec<(String, String)> = params.to_form("module_item");
        assert(pairs_view(form@) =~= params.form_view("module_item"@));
        scoped(self.req().put(endpoint.as_str(), form), Scope { course_id: Some(self.course_id), module_id: Some(self.module_id), ..Scope::empty() })
    }

    /// Delete this module item.
    ///
    /// # Canvas API
    /// `DELETE /api/v1/courses/:course_id/modules/:module_id/items/:id`
    pub fn delete(&self) -> (r: Result<Request>)
        requires
            !(self.course_id is None) && !(self.module_id is None) ==> self.requester is Some,
        ensures
            (self.course_id is None) ==> (r matches Err(e) && is_bad_request(e, "ModuleItem does not have a course_id"@)),
            !(self.course_id is None) && (self.module_id is None) ==> (r matches Err(e) && is_bad_request(e, "ModuleItem does not have a module_id"@)),
            !(self.course_id is None) && !(self.module_id is None) ==> self.requester.unwrap().sends_scoped(
                r,
                Method::Delete,
                "courses/"@ + dec(self.course_id.unwrap() as nat) + "/modules/"@ + dec(self.module_id.unwrap() as nat) + "/items/"@ + dec(self.id as nat),
                PayloadView::Query(seq![]),
                Scope { course_id: Some(self.course_id), module_id: Some(self.module_id), ..Scope::none() },
            ),
    {
        if self.course_id.is_none() {
            return Err(bad_request("ModuleItem does not have a course_id"));
        }
        if self.module_id.is_none() {
            return Err(bad_request("ModuleItem does not have a module_id"));
        }
        let mut endpoint = String::new();
        endpoint.append("courses/");
        push_u64(&mut endpoint, self.course_id.unwrap());
        endpoint.append("/modules/");
        push_u64(&mut endpoint, self.module_id.unwrap());
        endpoint.append("/items/");
        push_u64(&mut endpoint, self.id);
        assert(endpoint@ =~= "courses/"@ + dec(self.course_id.unwrap() as nat) + "/modules/"@ + dec(self.module_id.unwrap() as nat) + "/items/"@ + dec(self.id as nat));
        let form: Vec<(String, String)> = Vec::new();
        assert(pairs_view(form@) =~= seq![]);
        scoped(self.req().delete(endpoint.as_str(), form), Scope { course_id: Some(self.course_id), module_id: Some(self.module_id), ..Scope::empty() })
    }

    /// Mark this module item as complete.
    ///
    /// # Canvas API
    /// `PUT /api/v1/courses/:course_id/modules/:module_id/items/:id/done`
    pub fn complete(&self) -> (r: Result<Request>)
        requires
            !(self.course_id is None) && !(self.module_id is None) ==> self.requester is Some,
        ensures
            (self.course_id is None) ==> (r matches Err(e) && is_bad_request(e, "ModuleItem does not have a course_id"@)),
            !(self.course_id is None) && (self.module_id is None) ==> (r matches Err(e) && is_bad_request(e, "ModuleItem does not have a module_id"@)),
            !(self.course_id is None) && !(self.module_id is None) ==> self.requester.unwrap().sends_scoped(
                r,
                Method::Put,
                "courses/"@ + dec(self.course_id.unwrap() as nat) + "/modules/"@ + dec(self.module_id.unwrap() as nat) + "/items/"@ + dec(self.id as nat) + "/done"@,
                PayloadView::Form(seq![]),
                Scope { course_id: Some(self.course_id), module_id: Some(self.module_id), ..Scope::none() },
            ),
    {
        if self.course_id.is_none() {
            return Err(bad_request("ModuleItem does not have a course_id"));
        }
        if self.module_id.is_none() {
            return Err(bad_request("ModuleItem does not have a module_id"));
        }
        let mut endpoint = String::new();
        endpoint.append("courses/");
        push_u64(&mut endpoint, self.course_id.unwrap());
        endpoint.append("/modules/");
        push_u64(&mut endpoint, self.module_id.unwrap());
        endpoint.append("/items/");
        push_u64(&mut endpoint, self.id);
        endpoint.append("/done");
        assert(endpoint@ =~= "courses/"@ + dec(self.course_id.unwrap() as nat) + "/modules/"@ + dec(self.module_id.unwrap() as nat) + "/items/"@ + dec(self.id as nat) + "/done"@);
        let form: Vec<(String, String)> = Vec::new();
        assert(pairs_view(form@) =~= seq![]);
        scoped(self.req().put(endpoint.as_str(), form), Scope { course_id: Some(self.course_id), module_id: Some(self.module_id), ..Scope::empty() })
    }

    /// Mark this module item as incomplete.
    ///
    /// # Canvas API
    /// `DELETE /api/v1/courses/:course_id/modules/:module_id/items/:id/done`
    pub fn uncomplete(&self) -> (r: Result<Request>)
        requires
            !(self.course_id is None) && !(self.module_id is None) ==> self.requester is Some,
        ensures
            (self.course_id is None) ==> (r matches Err(e) && is_bad_request(e, "ModuleItem does not have a course_id"@)),
            !(self.course_id is None) && (self.module_id is None) ==> (r matches Err(e) && is_bad_request(e, "ModuleItem does not have a module_id"@)),
            !(self.course_id is None) && !(self.module_id is None) ==> self.requester.unwrap().sends_scoped(
                r,
                Method::Delete,
                "courses/"@ + dec(self.course_id.unwrap() as nat) + "/modules/"@ + dec(self.module_id.unwrap() as nat) + "/items/"@ + dec(self.id as nat) + "/done"@,
                PayloadView::Query(seq![]),
                Scope { course_id: Some(self.course_id), module_id: Some(self.module_id), ..Scope::none() },
            ),
    {
        if self.course_id.is_none() {
            return Err(bad_request("ModuleItem does not have a course_id"));
        }
        if self.module_id.is_none() {
            return Err(bad_request("ModuleItem does not have a module_id"));
        }
        let mut endpoint = String::new();
        endpoint.append("courses/");
        push_u64(&mut endpoint, self.course_id.unwrap());
        endpoint.append("/modules/");
        push_u64(&mut endpoint, self.module_id.unwrap());
        endpoint.append("/items/");
        push_u64(&mut endpoint, self.id);
        endpoint.append("/done");
        assert(endpoint@ =~= "courses/"@ + dec(self.course_id.unwrap() as nat) + "/modules/"@ + dec(self.module_id.unwrap() as nat) + "/items/"@ + dec(self.id as nat) + "/done"@);
        let form: Vec<(String, String)> = Vec::new();
        assert(pairs_view(form@) =~= seq![]);
        scoped(self.req().delete(endpoint.as_str(), form), Scope { course_id: Some(self.course_id), module_id: Some(self.module_id), ..Scope::empty() })
    }
}

/// Completion requirement for a module item.
#[derive(Debug)]
pub struct CompletionRequirement {
    pub requirement_type: Option<String>,
    /// A decimal, as the text `serde_json` prints for it (`10.0`, `2.5`).
    pub min_score: Option<String>,
    pub completed: Option<bool>,
}

impl Module {
    /// Create a new item in this module. A module without course is refused
    /// first; then an item without `content_id` unless it is a `SubHeader`,
    /// each without calling Canvas. The item that Canvas answers with takes the
    /// module's course and id.
    ///
    /// # Canvas API
    /// `POST /api/v1/courses/:course_id/modules/:id/items`
    pub fn create_module_item(&self, params: CreateModuleItemParams) -> (r: Result<Request>)
        requires
            self.course_id is Some && (params.item_type@ == "SubHeader"@ || params.content_id is Some)
                ==> self.requester is Some,
        ensures
            self.course_id is None ==> (r matches Err(e) && is_bad_request(e, "Module does not have a course_id"@)),
            self.course_id is Some && params.item_type@ != "SubHeader"@ && params.content_id is None ==> (r matches Err(
                e,
            ) && is_bad_request(e, "content_id is required for this module item type"@)),
            self.course_id is Some && (params.item_type@ == "SubHeader"@ || params.content_id is Some)
                ==> self.requester.unwrap().sends_scoped(
                r,
                Method::Post,
                "courses/"@ + dec(self.course_id.unwrap() as nat) + "/modules/"@ + dec(self.id as nat) + "/items"@,
                PayloadView::Form(params.form_view("module_item"@)),
                Scope { course_id: Some(self.course_id), module_id: Some(Some(self.id)), ..Scope::none() },
            ),
    {
        let course_id = match self.course_id {
            Some(c) => c,
            None => return Err(bad_request("Module does not have a course_id")),
        };
        if !same_text(params.item_type.as_str(), "SubHeader") && params.content_id.is_none() {
            return Err(bad_request("content_id is required for this module item type"));
        }
        let mut endpoint = "courses/".to_owned();
        push_u64(&mut endpoint, course_id);
        endpoint.append("/modules/");
        push_u64(&mut endpoint, self.id);
        endpoint.append("/items");
        let form = params.to_form("module_item");
        scoped(
            self.req().post(endpoint.as_str(), form),
            Scope { course_id: Some(self.course_id), module_id: Some(Some(self.id)), ..Scope::empty() },
        )
    }
}

} // verus!
