use vstd::prelude::*;
use std::sync::Arc;
use crate::error::Result;
use crate::http::{scoped, share, Method, PayloadView, Request, Requester, Scope};
use crate::pagination::{lists, PageStream};
use crate::params::{
    add_bool, add_text, add_u64, bool_of, concat_upto, entry, field, lemma_part_in_concat,
    member_key, pairs_view, text_of, u64_of,
};
use crate::text::{bool_text, dec, push_u64};

verus! {

/// A custom gradebook column in a Canvas course.
#[derive(Debug)]
pub struct CustomGradebookColumn {
    pub id: u64,
    pub course_id: Option<u64>,
    pub title: Option<String>,
    pub position: Option<u64>,
    pub teacher_notes: Option<bool>,
    pub read_only: Option<bool>,
    pub hidden: Option<bool>,
    pub requester: Option<Arc<Requester>>,
}

impl CustomGradebookColumn {
    /// Takes in this CustomGradebookColumn as fetched: it keeps `requester` for its own calls,
    /// and takes `course_id` from the scope where the scope sets it.
    pub fn adopt(&mut self, requester: Arc<Requester>, scope: &Scope)
        ensures
            final(self).requester == Some(requester),
            final(self).course_id == (match scope.course_id {
                Some(v) => v,
                None => old(self).course_id,
            }),
            final(self).id == old(self).id,
            final(self).title == old(self).title,
            final(self).position == old(self).position,
            final(self).teacher_notes == old(self).teacher_notes,
            final(self).read_only == old(self).read_only,
            final(self).hidden == old(self).hidden,
    {
        self.requester = Some(requester);
        if let Some(v) = scope.course_id {
            self.course_id = v;
        }
    }

    fn req(&self) -> (r: &Arc<Requester>)
        requires
            self.requester is Some,
        ensures
            *r == self.requester.unwrap(),
    {
        self.requester.as_ref().unwrap()
    }

    /// Delete this custom gradebook column.
    ///
    /// # Canvas API
    /// `DELETE /api/v1/courses/:course_id/custom_gradebook_columns/:id`
    pub fn delete(&self) -> (r: Result<Request>)
        requires
            self.requester is Some,
            self.course_id is Some,
        ensures
            self.requester.unwrap().sends_scoped(
                r,
                Method::Delete,
                "courses/"@ + dec(self.course_id.unwrap() as nat) + "/custom_gradebook_columns/"@ + dec(self.id as nat),
                PayloadView::Query(seq![]),
                Scope::none(),
            ),
    {
        let mut endpoint = String::new();
        endpoint.append("courses/");
        push_u64(&mut endpoint, self.course_id.unwrap());
        endpoint.append("/custom_gradebook_columns/");
        push_u64(&mut endpoint, self.id);
        assert(endpoint@ =~= "courses/"@ + dec(self.course_id.unwrap() as nat) + "/custom_gradebook_columns/"@ + dec(self.id as nat));
        let form: Vec<(String, String)> = Vec::new();
        assert(pairs_view(form@) =~= seq![]);
        scoped(self.req().delete(endpoint.as_str(), form), Scope::empty())
    }

    /// Update this custom gradebook column.
    ///
    /// # Canvas API
    /// `PUT /api/v1/courses/:course_id/custom_gradebook_columns/:id`
    pub fn update(&self, params: CustomGradebookColumnParams) -> (r: Result<Request>)
        requires
            self.requester is Some,
            self.course_id is Some,
        ensures
            self.requester.unwrap().sends_scoped(
                r,
                Method::Put,
                "courses/"@ + dec(self.course_id.unwrap() as nat) + "/custom_gradebook_columns/"@ + dec(self.id as nat),
                PayloadView::Form(params.form_view("column"@)),
                Scope::none(),
            ),
    {
        let mut endpoint = String::new();
        endpoint.append("courses/");
        push_u64(&mut endpoint, self.course_id.unwrap());
        endpoint.append("/custom_gradebook_columns/");
        push_u64(&mut endpoint, self.id);
        assert(endpoint@ =~= "courses/"@ + dec(self.course_id.unwrap() as nat) + "/custom_gradebook_columns/"@ + dec(self.id as nat));
        let form: Vec<(String, String)> = params.to_form("column");
        assert(pairs_view(form@) =~= params.form_view("column"@));
        scoped(self.req().put(endpoint.as_str(), form), Scope::empty())
    }

    /// Stream all data entries for this custom gradebook column.
    ///
    /// # Canvas API
    /// `GET /api/v1/courses/:course_id/custom_gradebook_columns/:id/data`
    pub fn get_column_entries(&self) -> (s: PageStream<ColumnData>)
        requires
            self.requester is Some,
            self.course_id is Some,
        ensures
            lists(s, *self.requester.unwrap(), self.requester.unwrap().base(), "courses/"@ + dec(self.course_id.unwrap() as nat) + "/custom_gradebook_columns/"@ + dec(self.id as nat) + "/data"@, seq![], Scope { course_id: Some(Some(self.course_id.unwrap())), gradebook_column_id: Some(Some(self.id)), ..Scope::none() }),
    {
        let mut endpoint = String::new();
        endpoint.append("courses/");
        push_u64(&mut endpoint, self.course_id.unwrap());
        endpoint.append("/custom_gradebook_columns/");
        push_u64(&mut endpoint, self.id);
        endpoint.append("/data");
        assert(endpoint@ =~= "courses/"@ + dec(self.course_id.unwrap() as nat) + "/custom_gradebook_columns/"@ + dec(self.id as nat) + "/data"@);
        let form: Vec<(String, String)> = Vec::new();
        assert(pairs_view(form@) =~= seq![]);
        PageStream::new(share(self.req()), endpoint.as_str(), form).with_scope(Scope { course_id: Some(Some(self.course_id.unwrap())), gradebook_column_id: Some(Some(self.id)), ..Scope::empty() })
    }
}

/// A single data entry (cell value) in a custom gradebook column.
#[derive(Debug)]
pub struct ColumnData {
    pub id: Option<u64>,
    pub gradebook_column_id: Option<u64>,
    pub content: Option<String>,
    pub user_id: Option<u64>,
    /// Injected from parent; not returned by Canvas.
    pub course_id: Option<u64>,
    pub requester: Option<Arc<Requester>>,
}

impl ColumnData {
    /// Takes in this ColumnData as fetched: it keeps `requester` for its own calls,
    /// and takes `course_id`, `gradebook_column_id` from the scope where the scope sets them.
    pub fn adopt(&mut self, requester: Arc<Requester>, scope: &Scope)
        ensures
            final(self).requester == Some(requester),
            final(self).gradebook_column_id == (match scope.gradebook_column_id {
                Some(v) => v,
                None => old(self).gradebook_column_id,
            }),
            final(self).course_id == (match scope.course_id {
                Some(v) => v,
                None => old(self).course_id,
            }),
            final(self).id == old(self).id,
            final(self).content == old(self).content,
            final(self).user_id == old(self).user_id,
    {
        self.requester = Some(requester);
        if let Some(v) = scope.gradebook_column_id {
            self.gradebook_column_id = v;
        }
        if let Some(v) = scope.course_id {
            self.course_id = v;
        }
    }

    fn req(&self) -> (r: &Arc<Requester>)
        requires
            self.requester is Some,
        ensures
            *r == self.requester.unwrap(),
    {
        self.requester.as_ref().unwrap()
    }

    /// Update the content of this column data entry.
    ///
    /// # Canvas API
    /// `PUT /api/v1/courses/:course_id/custom_gradebook_columns/:column_id/data/:user_id`
    pub fn update_column_data(&self, content: &str) -> (r: Result<Request>)
        requires
            self.requester is Some,
            self.course_id is Some,
            self.gradebook_column_id is Some,
            self.user_id is Some,
        ensures
            self.requester.unwrap().sends_scoped(
                r,
                Method::Put,
                "courses/"@ + dec(self.course_id.unwrap() as nat) + "/custom_gradebook_columns/"@ + dec(self.gradebook_column_id.unwrap() as nat) + "/data/"@ + dec(self.user_id.unwrap() as nat),
                PayloadView::Form(seq![("column_data[content]"@, content@)]),
                Scope { course_id: Some(self.course_id), gradebook_column_id: Some(self.gradebook_column_id), ..Scope::none() },
            ),
    {
        let mut endpoint = String::new();
        endpoint.append("courses/");
        push_u64(&mut endpoint, self.course_id.unwrap());
        endpoint.append("/custom_gradebook_columns/");
        push_u64(&mut endpoint, self.gradebook_column_id.unwrap());
        endpoint.append("/data/");
        push_u64(&mut endpoint, self.user_id.unwrap());
        assert(endpoint@ =~= "courses/"@ + dec(self.course_id.unwrap() as nat) + "/custom_gradebook_columns/"@ + dec(self.gradebook_column_id.unwrap() as nat) + "/data/"@ + dec(self.user_id.unwrap() as nat));
        let form: Vec<(String, String)> = vec![("column_data[content]".to_owned(), content.to_owned())];
        assert(pairs_view(form@) =~= seq![("column_data[content]"@, content@)]);
        scoped(self.req().put(endpoint.as_str(), form), Scope { course_id: Some(self.course_id), gradebook_column_id: Some(self.gradebook_column_id), ..Scope::empty() })
    }
}

/// Parameters for creating or updating a custom gradebook column.
#[derive(Debug, Default)]
pub struct CustomGradebookColumnParams {
    pub title: Option<String>,
    pub position: Option<u64>,
    pub hidden: Option<bool>,
    pub teacher_notes: Option<bool>,
    pub read_only: Option<bool>,
}

impl CustomGradebookColumnParams {
    /// The parameters these settings give under `key`: `key[member]` for each
    /// member that is set, in the order of the member names.
    pub open spec fn form_view(self, key: Seq<char>) -> Seq<(Seq<char>, Seq<char>)> {
        field(key, "hidden"@, bool_of(self.hidden))
        + field(key, "position"@, u64_of(self.position))
        + field(key, "read_only"@, bool_of(self.read_only))
        + field(key, "teacher_notes"@, bool_of(self.teacher_notes))
        + field(key, "title"@, text_of(self.title))
    }

    /// The parameters these settings give under `key` (what flattening
    /// `{key: settings}` gives).
    pub fn to_form(&self, key: &str) -> (r: Vec<(String, String)>)
        ensures
            pairs_view(r@) == self.form_view(key@),
    {
        let mut out: Vec<(String, String)> = Vec::new();
        add_bool(&mut out, key, "hidden", self.hidden);
        add_u64(&mut out, key, "position", self.position);
        add_bool(&mut out, key, "read_only", self.read_only);
        add_bool(&mut out, key, "teacher_notes", self.teacher_notes);
        add_text(&mut out, key, "title", &self.title);
        assert(pairs_view(out@) =~= self.form_view(key@));
        out
    }

    /// Every member of these settings that is set is sent under `key[member]`,
    /// with its text (a boolean as `true`/`false`, a number in decimal).
    pub proof fn lemma_form_sends_members(self, key: Seq<char>)
        ensures
            self.hidden is Some ==> self.form_view(key).contains((member_key(key, "hidden"@), bool_text(self.hidden.unwrap()))),
            self.position is Some ==> self.form_view(key).contains((member_key(key, "position"@), dec(self.position.unwrap() as nat))),
            self.read_only is Some ==> self.form_view(key).contains((member_key(key, "read_only"@), bool_text(self.read_only.unwrap()))),
            self.teacher_notes is Some ==> self.form_view(key).contains((member_key(key, "teacher_notes"@), bool_text(self.teacher_notes.unwrap()))),
            self.title is Some ==> self.form_view(key).contains((member_key(key, "title"@), self.title.unwrap()@)),
    {
        let parts = seq![
            field(key, "hidden"@, bool_of(self.hidden)),
            field(key, "position"@, u64_of(self.position)),
            field(key, "read_only"@, bool_of(self.read_only)),
            field(key, "teacher_notes"@, bool_of(self.teacher_notes)),
            field(key, "title"@, text_of(self.title)),
        ];
        assert(self.form_view(key) == concat_upto(parts, 5)) by {
            assert(concat_upto(parts, 0) == Seq::<(Seq<char>, Seq<char>)>::empty());
            assert(concat_upto(parts, 1) =~= parts[0]);
            assert(concat_upto(parts, 2) == concat_upto(parts, 1) + parts[1]);
            assert(concat_upto(parts, 3) == concat_upto(parts, 2) + parts[2]);
            assert(concat_upto(parts, 4) == concat_upto(parts, 3) + parts[3]);
            assert(concat_upto(parts, 5) == concat_upto(parts, 4) + parts[4]);
        }
        assert(self.hidden is Some ==> self.form_view(key).contains((member_key(key, "hidden"@), bool_text(self.hidden.unwrap())))) by {
            if self.hidden is Some {
                assert(parts[0][0] == (member_key(key, "hidden"@), bool_text(self.hidden.unwrap())));
                lemma_part_in_concat(parts, 5, 0, (member_key(key, "hidden"@), bool_text(self.hidden.unwrap())));
            }
        }
        assert(self.position is Some ==> self.form_view(key).contains((member_key(key, "position"@), dec(self.position.unwrap() as nat)))) by {
            if self.position is Some {
                assert(parts[1][0] == (member_key(key, "position"@), dec(self.position.unwrap() as nat)));
                lemma_part_in_concat(parts, 5, 1, (member_key(key, "position"@), dec(self.position.unwrap() as nat)));
            }
        }
        assert(self.read_only is Some ==> self.form_view(key).contains((member_key(key, "read_only"@), bool_text(self.read_only.unwrap())))) by {
            if self.read_only is Some {
                assert(parts[2][0] == (member_key(key, "read_only"@), bool_text(self.read_only.unwrap())));
                lemma_part_in_concat(parts, 5, 2, (member_key(key, "read_only"@), bool_text(self.read_only.unwrap())));
            }
        }
        assert(self.teacher_notes is Some ==> self.form_view(key).contains((member_key(key, "teacher_notes"@), bool_text(self.teacher_notes.unwrap())))) by {
            if self.teacher_notes is Some {
                assert(parts[3][0] == (member_key(key, "teacher_notes"@), bool_text(self.teacher_notes.unwrap())));
                lemma_part_in_concat(parts, 5, 3, (member_key(key, "teacher_notes"@), bool_text(self.teacher_notes.unwrap())));
            }
        }
        assert(self.title is Some ==> self.form_view(key).contains((member_key(key, "title"@), self.title.unwrap()@))) by {
            if self.title is Some {
                assert(parts[4][0] == (member_key(key, "title"@), self.title.unwrap()@));
                lemma_part_in_concat(parts, 5, 4, (member_key(key, "title"@), self.title.unwrap()@));
            }
        }
    }
}

} // verus!
