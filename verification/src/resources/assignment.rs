use vstd::prelude::*;
use std::sync::Arc;
use crate::error::{bad_request, is_bad_request, Result};
use crate::http::{scoped, share, Method, PayloadView, Request, Requester, Scope};
use crate::json::{get, JsonValue};
use crate::pagination::{lists, PageStream};
use crate::params::{
    add_bool, add_i64, add_required_text, add_text, add_text_list, add_u64, add_u64_list, bool_of,
    concat_upto, field, i64_of, id_params, id_params_view, lemma_part_in_concat, list_field,
    member_key, pairs_view, text_of, texts_of, u64_of, u64s_of,
};
use crate::text::{bool_text, dec, dec_signed, id_or, id_or_spec, push_u64, u64_to_text};

verus! {

/// Parameters for creating or editing a Canvas assignment.
#[derive(Debug, Default)]
pub struct AssignmentParams {
    pub name: Option<String>,
    pub position: Option<u64>,
    pub submission_types: Option<Vec<String>>,
    pub allowed_extensions: Option<Vec<String>>,
    pub turnitin_enabled: Option<bool>,
    pub allowed_attempts: Option<i64>,
    /// A decimal, as the text `serde_json` prints for it (`10.0`, `2.5`).
    pub points_possible: Option<String>,
    pub grading_type: Option<String>,
    /// A time, as RFC 3339 text.
    pub due_at: Option<String>,
    /// A time, as RFC 3339 text.
    pub lock_at: Option<String>,
    /// A time, as RFC 3339 text.
    pub unlock_at: Option<String>,
    pub description: Option<String>,
    pub published: Option<bool>,
    pub omit_from_final_grade: Option<bool>,
    pub assignment_group_id: Option<u64>,
}

impl AssignmentParams {
    /// The parameters these settings give under `key`: `key[member]` for each
    /// member that is set, in the order of the member names.
    pub open spec fn form_view(self, key: Seq<char>) -> Seq<(Seq<char>, Seq<char>)> {
        field(key, "allowed_attempts"@, i64_of(self.allowed_attempts))
        + (match self.allowed_extensions {
            Some(vs) => list_field(key, "allowed_extensions"@, texts_of(vs@)),
            None => seq![],
        })
        + field(key, "assignment_group_id"@, u64_of(self.assignment_group_id))
        + field(key, "description"@, text_of(self.description))
        + field(key, "due_at"@, text_of(self.due_at))
        + field(key, "grading_type"@, text_of(self.grading_type))
        + field(key, "lock_at"@, text_of(self.lock_at))
        + field(key, "name"@, text_of(self.name))
        + field(key, "omit_from_final_grade"@, bool_of(self.omit_from_final_grade))
        + field(key, "points_possible"@, text_of(self.points_possible))
        + field(key, "position"@, u64_of(self.position))
        + field(key, "published"@, bool_of(self.published))
        + (match self.submission_types {
            Some(vs) => list_field(key, "submission_types"@, texts_of(vs@)),
            None => seq![],
        })
        + field(key, "turnitin_enabled"@, bool_of(self.turnitin_enabled))
        + field(key, "unlock_at"@, text_of(self.unlock_at))
    }

    /// The parameters these settings give under `key` (what flattening
    /// `{key: settings}` gives).
    pub fn to_form(&self, key: &str) -> (r: Vec<(String, String)>)
        ensures
            pairs_view(r@) == self.form_view(key@),
    {
        let mut out: Vec<(String, String)> = Vec::new();
        add_i64(&mut out, key, "allowed_attempts", self.allowed_attempts);
        match &self.allowed_extensions {
            Some(vs) => add_text_list(&mut out, key, "allowed_extensions", vs),
            None => {},
        }
        add_u64(&mut out, key, "assignment_group_id", self.assignment_group_id);
        add_text(&mut out, key, "description", &self.description);
        add_text(&mut out, key, "due_at", &self.due_at);
        add_text(&mut out, key, "grading_type", &self.grading_type);
        add_text(&mut out, key, "lock_at", &self.lock_at);
        add_text(&mut out, key, "name", &self.name);
        add_bool(&mut out, key, "omit_from_final_grade", self.omit_from_final_grade);
        add_text(&mut out, key, "points_possible", &self.points_possible);
        add_u64(&mut out, key, "position", self.position);
        add_bool(&mut out, key, "published", self.published);
        match &self.submission_types {
            Some(vs) => add_text_list(&mut out, key, "submission_types", vs),
            None => {},
        }
        add_bool(&mut out, key, "turnitin_enabled", self.turnitin_enabled);
        add_text(&mut out, key, "unlock_at", &self.unlock_at);
        assert(pairs_view(out@) =~= self.form_view(key@));
        out
    }

    /// Every member of these settings that is set is sent under `key[member]`,
    /// with its text (a boolean as `true`/`false`, a number in decimal).
    pub proof fn lemma_form_sends_members(self, key: Seq<char>)
        ensures
            self.allowed_attempts is Some ==> self.form_view(key).contains((member_key(key, "allowed_attempts"@), dec_signed(self.allowed_attempts.unwrap() as int))),
            self.assignment_group_id is Some ==> self.form_view(key).contains((member_key(key, "assignment_group_id"@), dec(self.assignment_group_id.unwrap() as nat))),
            self.description is Some ==> self.form_view(key).contains((member_key(key, "description"@), self.description.unwrap()@)),
            self.due_at is Some ==> self.form_view(key).contains((member_key(key, "due_at"@), self.due_at.unwrap()@)),
            self.grading_type is Some ==> self.form_view(key).contains((member_key(key, "grading_type"@), self.grading_type.unwrap()@)),
            self.lock_at is Some ==> self.form_view(key).contains((member_key(key, "lock_at"@), self.lock_at.unwrap()@)),
            self.name is Some ==> self.form_view(key).contains((member_key(key, "name"@), self.name.unwrap()@)),
            self.omit_from_final_grade is Some ==> self.form_view(key).contains((member_key(key, "omit_from_final_grade"@), bool_text(self.omit_from_final_grade.unwrap()))),
            self.points_possible is Some ==> self.form_view(key).contains((member_key(key, "points_possible"@), self.points_possible.unwrap()@)),
            self.position is Some ==> self.form_view(key).contains((member_key(key, "position"@), dec(self.position.unwrap() as nat))),
            self.published is Some ==> self.form_view(key).contains((member_key(key, "published"@), bool_text(self.published.unwrap()))),
            self.turnitin_enabled is Some ==> self.form_view(key).contains((member_key(key, "turnitin_enabled"@), bool_text(self.turnitin_enabled.unwrap()))),
            self.unlock_at is Some ==> self.form_view(key).contains((member_key(key, "unlock_at"@), self.unlock_at.unwrap()@)),
    {
        let parts = self.form_parts(key);
        assert(self.allowed_attempts is Some ==> self.form_view(key).contains((member_key(key, "allowed_attempts"@), dec_signed(self.allowed_attempts.unwrap() as int)))) by {
            if self.allowed_attempts is Some {
                assert(parts[0][0] == (member_key(key, "allowed_attempts"@), dec_signed(self.allowed_attempts.unwrap() as int)));
                lemma_part_in_concat(parts, 15, 0, (member_key(key, "allowed_attempts"@), dec_signed(self.allowed_attempts.unwrap() as int)));
            }
        }
        assert(self.assignment_group_id is Some ==> self.form_view(key).contains((member_key(key, "assignment_group_id"@), dec(self.assignment_group_id.unwrap() as nat)))) by {
            if self.assignment_group_id is Some {
                assert(parts[2][0] == (member_key(key, "assignment_group_id"@), dec(self.assignment_group_id.unwrap() as nat)));
                lemma_part_in_concat(parts, 15, 2, (member_key(key, "assignment_group_id"@), dec(self.assignment_group_id.unwrap() as nat)));
            }
        }
        assert(self.description is Some ==> self.form_view(key).contains((member_key(key, "description"@), self.description.unwrap()@))) by {
            if self.description is Some {
                assert(parts[3][0] == (member_key(key, "description"@), self.description.unwrap()@));
                lemma_part_in_concat(parts, 15, 3, (member_key(key, "description"@), self.description.unwrap()@));
            }
        }
        assert(self.due_at is Some ==> self.form_view(key).contains((member_key(key, "due_at"@), self.due_at.unwrap()@))) by {
            if self.due_at is Some {
                assert(parts[4][0] == (member_key(key, "due_at"@), self.due_at.unwrap()@));
                lemma_part_in_concat(parts, 15, 4, (member_key(key, "due_at"@), self.due_at.unwrap()@));
            }
        }
        assert(self.grading_type is Some ==> self.form_view(key).contains((member_key(key, "grading_type"@), self.grading_type.unwrap()@))) by {
            if self.grading_type is Some {
                assert(parts[5][0] == (member_key(key, "grading_type"@), self.grading_type.unwrap()@));
                lemma_part_in_concat(parts, 15, 5, (member_key(key, "grading_type"@), self.grading_type.unwrap()@));
            }
        }
        assert(self.lock_at is Some ==> self.form_view(key).contains((member_key(key, "lock_at"@), self.lock_at.unwrap()@))) by {
            if self.lock_at is Some {
                assert(parts[6][0] == (member_key(key, "lock_at"@), self.lock_at.unwrap()@));
                lemma_part_in_concat(parts, 15, 6, (member_key(key, "lock_at"@), self.lock_at.unwrap()@));
            }
        }
        assert(self.name is Some ==> self.form_view(key).contains((member_key(key, "name"@), self.name.unwrap()@))) by {
            if self.name is Some {
                assert(parts[7][0] == (member_key(key, "name"@), self.name.unwrap()@));
                lemma_part_in_concat(parts, 15, 7, (member_key(key, "name"@), self.name.unwrap()@));
            }
        }
        assert(self.omit_from_final_grade is Some ==> self.form_view(key).contains((member_key(key, "omit_from_final_grade"@), bool_text(self.omit_from_final_grade.unwrap())))) by {
            if self.omit_from_final_grade is Some {
                assert(parts[8][0] == (member_key(key, "omit_from_final_grade"@), bool_text(self.omit_from_final_grade.unwrap())));
                lemma_part_in_concat(parts, 15, 8, (member_key(key, "omit_from_final_grade"@), bool_text(self.omit_from_final_grade.unwrap())));
            }
        }
        assert(self.points_possible is Some ==> self.form_view(key).contains((member_key(key, "points_possible"@), self.points_possible.unwrap()@))) by {
            if self.points_possible is Some {
                assert(parts[9][0] == (member_key(key, "points_possible"@), self.points_possible.unwrap()@));
                lemma_part_in_concat(parts, 15, 9, (member_key(key, "points_possible"@), self.points_possible.unwrap()@));
            }
        }
        assert(self.position is Some ==> self.form_view(key).contains((member_key(key, "position"@), dec(self.position.unwrap() as nat)))) by {
            if self.position is Some {
                assert(parts[10][0] == (member_key(key, "position"@), dec(self.position.unwrap() as nat)));
                lemma_part_in_concat(parts, 15, 10, (member_key(key, "position"@), dec(self.position.unwrap() as nat)));
            }
        }
        assert(self.published is Some ==> self.form_view(key).contains((member_key(key, "published"@), bool_text(self.published.unwrap())))) by {
            if self.published is Some {
                assert(parts[11][0] == (member_key(key, "published"@), bool_text(self.published.unwrap())));
                lemma_part_in_concat(parts, 15, 11, (member_key(key, "published"@), bool_text(self.published.unwrap())));
            }
        }
        assert(self.turnitin_enabled is Some ==> self.form_view(key).contains((member_key(key, "turnitin_enabled"@), bool_text(self.turnitin_enabled.unwrap())))) by {
            if self.turnitin_enabled is Some {
                assert(parts[13][0] == (member_key(key, "turnitin_enabled"@), bool_text(self.turnitin_enabled.unwrap())));
                lemma_part_in_concat(parts, 15, 13, (member_key(key, "turnitin_enabled"@), bool_text(self.turnitin_enabled.unwrap())));
            }
        }
        assert(self.unlock_at is Some ==> self.form_view(key).contains((member_key(key, "unlock_at"@), self.unlock_at.unwrap()@))) by {
            if self.unlock_at is Some {
                assert(parts[14][0] == (member_key(key, "unlock_at"@), self.unlock_at.unwrap()@));
                lemma_part_in_concat(parts, 15, 14, (member_key(key, "unlock_at"@), self.unlock_at.unwrap()@));
            }
        }
    }

    /// The parts of the parameters, member by member in the order of the
    /// member names; together they are the parameters.
    #[verifier::rlimit(40)]
    proof fn form_parts(self, key: Seq<char>) -> (parts: Seq<Seq<(Seq<char>, Seq<char>)>>)
        ensures
            parts.len() == 15,
            self.form_view(key) == concat_upto(parts, 15),
            parts[0] == field(key, "allowed_attempts"@, i64_of(self.allowed_attempts)),
            parts[1] == (match self.allowed_extensions {
                Some(vs) => list_field(key, "allowed_extensions"@, texts_of(vs@)),
                None => seq![],
            }),
            parts[2] == field(key, "assignment_group_id"@, u64_of(self.assignment_group_id)),
            parts[3] == field(key, "description"@, text_of(self.description)),
            parts[4] == field(key, "due_at"@, text_of(self.due_at)),
            parts[5] == field(key, "grading_type"@, text_of(self.grading_type)),
            parts[6] == field(key, "lock_at"@, text_of(self.lock_at)),
            parts[7] == field(key, "name"@, text_of(self.name)),
            parts[8] == field(key, "omit_from_final_grade"@, bool_of(self.omit_from_final_grade)),
            parts[9] == field(key, "points_possible"@, text_of(self.points_possible)),
            parts[10] == field(key, "position"@, u64_of(self.position)),
            parts[11] == field(key, "published"@, bool_of(self.published)),
            parts[12] == (match self.submission_types {
                Some(vs) => list_field(key, "submission_types"@, texts_of(vs@)),
                None => seq![],
            }),
            parts[13] == field(key, "turnitin_enabled"@, bool_of(self.turnitin_enabled)),
            parts[14] == field(key, "unlock_at"@, text_of(self.unlock_at)),
    {
        let parts = seq![
            field(key, "allowed_attempts"@, i64_of(self.allowed_attempts)),
            (match self.allowed_extensions {
                Some(vs) => list_field(key, "allowed_extensions"@, texts_of(vs@)),
                None => seq![],
            }),
            field(key, "assignment_group_id"@, u64_of(self.assignment_group_id)),
            field(key, "description"@, text_of(self.description)),
            field(key, "due_at"@, text_of(self.due_at)),
            field(key, "grading_type"@, text_of(self.grading_type)),
            field(key, "lock_at"@, text_of(self.lock_at)),
            field(key, "name"@, text_of(self.name)),
            field(key, "omit_from_final_grade"@, bool_of(self.omit_from_final_grade)),
            field(key, "points_possible"@, text_of(self.points_possible)),
            field(key, "position"@, u64_of(self.position)),
            field(key, "published"@, bool_of(self.published)),
            (match self.submission_types {
                Some(vs) => list_field(key, "submission_types"@, texts_of(vs@)),
                None => seq![],
            }),
            field(key, "turnitin_enabled"@, bool_of(self.turnitin_enabled)),
            field(key, "unlock_at"@, text_of(self.unlock_at)),
        ];
        assert(concat_upto(parts, 0) == Seq::<(Seq<char>, Seq<char>)>::empty());
        assert(concat_upto(parts, 1) =~= parts[0]);
        assert(concat_upto(parts, 2) == concat_upto(parts, 1) + parts[1]);
        assert(concat_upto(parts, 3) == concat_upto(parts, 2) + parts[2]);
        assert(concat_upto(parts, 4) == concat_upto(parts, 3) + parts[3]);
        assert(concat_upto(parts, 5) == concat_upto(parts, 4) + parts[4]);
        assert(concat_upto(parts, 6) == concat_upto(parts, 5) + parts[5]);
        assert(concat_upto(parts, 7) == concat_upto(parts, 6) + parts[6]);
        assert(concat_upto(parts, 8) == concat_upto(parts, 7) + parts[7]);
        assert(concat_upto(parts, 9) == concat_upto(parts, 8) + parts[8]);
        assert(concat_upto(parts, 10) == concat_upto(parts, 9) + parts[9]);
        assert(concat_upto(parts, 11) == concat_upto(parts, 10) + parts[10]);
        assert(concat_upto(parts, 12) == concat_upto(parts, 11) + parts[11]);
        assert(concat_upto(parts, 13) == concat_upto(parts, 12) + parts[12]);
        assert(concat_upto(parts, 14) == concat_upto(parts, 13) + parts[13]);
        assert(concat_upto(parts, 15) == concat_upto(parts, 14) + parts[14]);
        parts
    }
}

/// Parameters for submitting an assignment.
#[derive(Debug, Default)]
pub struct SubmitAssignmentParams {
    pub submission_type: String,
    pub body: Option<String>,
    pub url: Option<String>,
    pub file_ids: Option<Vec<u64>>,
    pub media_comment_id: Option<String>,
    pub media_comment_type: Option<String>,
}

impl SubmitAssignmentParams {
    /// The parameters these settings give under `key`: `key[member]` for each
    /// member that is set, in the order of the member names.
    pub open spec fn form_view(self, key: Seq<char>) -> Seq<(Seq<char>, Seq<char>)> {
        field(key, "body"@, text_of(self.body))
        + (match self.file_ids {
            Some(ids) => list_field(key, "file_ids"@, u64s_of(ids@)),
            None => seq![],
        })
        + field(key, "media_comment_id"@, text_of(self.media_comment_id))
        + field(key, "media_comment_type"@, text_of(self.media_comment_type))
        + field(key, "submission_type"@, Some(self.submission_type@))
        + field(key, "url"@, text_of(self.url))
    }

    /// The parameters these settings give under `key` (what flattening
    /// `{key: settings}` gives).
    pub fn to_form(&self, key: &str) -> (r: Vec<(String, String)>)
        ensures
            pairs_view(r@) == self.form_view(key@),
    {
        let mut out: Vec<(String, String)> = Vec::new();
        add_text(&mut out, key, "body", &self.body);
        match &self.file_ids {
            Some(ids) => add_u64_list(&mut out, key, "file_ids", ids),
            None => {},
        }
        add_text(&mut out, key, "media_comment_id", &self.media_comment_id);
        add_text(&mut out, key, "media_comment_type", &self.media_comment_type);
        add_required_text(&mut out, key, "submission_type", &self.submission_type);
        add_text(&mut out, key, "url", &self.url);
        assert(pairs_view(out@) =~= self.form_view(key@));
        out
    }

    /// Every member of these settings that is set is sent under `key[member]`,
    /// with its text (a boolean as `true`/`false`, a number in decimal).
    pub proof fn lemma_form_sends_members(self, key: Seq<char>)
        ensures
            self.body is Some ==> self.form_view(key).contains((member_key(key, "body"@), self.body.unwrap()@)),
            self.media_comment_id is Some ==> self.form_view(key).contains((member_key(key, "media_comment_id"@), self.media_comment_id.unwrap()@)),
            self.media_comment_type is Some ==> self.form_view(key).contains((member_key(key, "media_comment_type"@), self.media_comment_type.unwrap()@)),
            self.form_view(key).contains((member_key(key, "submission_type"@), self.submission_type@)),
            self.url is Some ==> self.form_view(key).contains((member_key(key, "url"@), self.url.unwrap()@)),
    {
        let parts = seq![
            field(key, "body"@, text_of(self.body)),
            (match self.file_ids {
                Some(ids) => list_field(key, "file_ids"@, u64s_of(ids@)),
                None => seq![],
            }),
            field(key, "media_comment_id"@, text_of(self.media_comment_id)),
            field(key, "media_comment_type"@, text_of(self.media_comment_type)),
            field(key, "submission_type"@, Some(self.submission_type@)),
            field(key, "url"@, text_of(self.url)),
        ];
        assert(self.form_view(key) == concat_upto(parts, 6)) by {
            assert(concat_upto(parts, 0) == Seq::<(Seq<char>, Seq<char>)>::empty());
            assert(concat_upto(parts, 1) =~= parts[0]);
            assert(concat_upto(parts, 2) == concat_upto(parts, 1) + parts[1]);
            assert(concat_upto(parts, 3) == concat_upto(parts, 2) + parts[2]);
            assert(concat_upto(parts, 4) == concat_upto(parts, 3) + parts[3]);
            assert(concat_upto(parts, 5) == concat_upto(parts, 4) + parts[4]);
            assert(concat_upto(parts, 6) == concat_upto(parts, 5) + parts[5]);
        }
        assert(self.body is Some ==> self.form_view(key).contains((member_key(key, "body"@), self.body.unwrap()@))) by {
            if self.body is Some {
                assert(parts[0][0] == (member_key(key, "body"@), self.body.unwrap()@));
                lemma_part_in_concat(parts, 6, 0, (member_key(key, "body"@), self.body.unwrap()@));
            }
        }
        assert(self.media_comment_id is Some ==> self.form_view(key).contains((member_key(key, "media_comment_id"@), self.media_comment_id.unwrap()@))) by {
            if self.media_comment_id is Some {
                assert(parts[2][0] == (member_key(key, "media_comment_id"@), self.media_comment_id.unwrap()@));
                lemma_part_in_concat(parts, 6, 2, (member_key(key, "media_comment_id"@), self.media_comment_id.unwrap()@));
            }
        }
        assert(self.media_comment_type is Some ==> self.form_view(key).contains((member_key(key, "media_comment_type"@), self.media_comment_type.unwrap()@))) by {
            if self.media_comment_type is Some {
                assert(parts[3][0] == (member_key(key, "media_comment_type"@), self.media_comment_type.unwrap()@));
                lemma_part_in_concat(parts, 6, 3, (member_key(key, "media_comment_type"@), self.media_comment_type.unwrap()@));
            }
        }
        assert(self.form_view(key).contains((member_key(key, "submission_type"@), self.submission_type@))) by {
            assert(parts[4][0] == (member_key(key, "submission_type"@), self.submission_type@));
            lemma_part_in_concat(parts, 6, 4, (member_key(key, "submission_type"@), self.submission_type@));
        }
        assert(self.url is Some ==> self.form_view(key).contains((member_key(key, "url"@), self.url.unwrap()@))) by {
            if self.url is Some {
                assert(parts[5][0] == (member_key(key, "url"@), self.url.unwrap()@));
                lemma_part_in_concat(parts, 6, 5, (member_key(key, "url"@), self.url.unwrap()@));
            }
        }
    }
}

/// Parameters for creating an assignment override.
#[derive(Debug, Default)]
pub struct AssignmentOverrideParams {
    pub student_ids: Option<Vec<u64>>,
    pub group_id: Option<u64>,
    pub course_section_id: Option<u64>,
    pub title: Option<String>,
    /// A time, as RFC 3339 text.
    pub due_at: Option<String>,
    /// A time, as RFC 3339 text.
    pub unlock_at: Option<String>,
    /// A time, as RFC 3339 text.
    pub lock_at: Option<String>,
}

impl AssignmentOverrideParams {
    /// The parameters these settings give under `key`: `key[member]` for each
    /// member that is set, in the order of the member names.
    pub open spec fn form_view(self, key: Seq<char>) -> Seq<(Seq<char>, Seq<char>)> {
        field(key, "course_section_id"@, u64_of(self.course_section_id))
        + field(key, "due_at"@, text_of(self.due_at))
        + field(key, "group_id"@, u64_of(self.group_id))
        + field(key, "lock_at"@, text_of(self.lock_at))
        + (match self.student_ids {
            Some(ids) => list_field(key, "student_ids"@, u64s_of(ids@)),
            None => seq![],
        })
        + field(key, "title"@, text_of(self.title))
        + field(key, "unlock_at"@, text_of(self.unlock_at))
    }

    /// The parameters these settings give under `key` (what flattening
    /// `{key: settings}` gives).
    pub fn to_form(&self, key: &str) -> (r: Vec<(String, String)>)
        ensures
            pairs_view(r@) == self.form_view(key@),
    {
        let mut out: Vec<(String, String)> = Vec::new();
        add_u64(&mut out, key, "course_section_id", self.course_section_id);
        add_text(&mut out, key, "due_at", &self.due_at);
        add_u64(&mut out, key, "group_id", self.group_id);
        add_text(&mut out, key, "lock_at", &self.lock_at);
        match &self.student_ids {
            Some(ids) => add_u64_list(&mut out, key, "student_ids", ids),
            None => {},
        }
        add_text(&mut out, key, "title", &self.title);
        add_text(&mut out, key, "unlock_at", &self.unlock_at);
        assert(pairs_view(out@) =~= self.form_view(key@));
        out
    }

    /// Every member of these settings that is set is sent under `key[member]`,
    /// with its text (a boolean as `true`/`false`, a number in decimal).
    pub proof fn lemma_form_sends_members(self, key: Seq<char>)
        ensures
            self.course_section_id is Some ==> self.form_view(key).contains((member_key(key, "course_section_id"@), dec(self.course_section_id.unwrap() as nat))),
            self.due_at is Some ==> self.form_view(key).contains((member_key(key, "due_at"@), self.due_at.unwrap()@)),
            self.group_id is Some ==> self.form_view(key).contains((member_key(key, "group_id"@), dec(self.group_id.unwrap() as nat))),
            self.lock_at is Some ==> self.form_view(key).contains((member_key(key, "lock_at"@), self.lock_at.unwrap()@)),
            self.title is Some ==> self.form_view(key).contains((member_key(key, "title"@), self.title.unwrap()@)),
            self.unlock_at is Some ==> self.form_view(key).contains((member_key(key, "unlock_at"@), self.unlock_at.unwrap()@)),
    {
        let parts = seq![
            field(key, "course_section_id"@, u64_of(self.course_section_id)),
            field(key, "due_at"@, text_of(self.due_at)),
            field(key, "group_id"@, u64_of(self.group_id)),
            field(key, "lock_at"@, text_of(self.lock_at)),
            (match self.student_ids {
                Some(ids) => list_field(key, "student_ids"@, u64s_of(ids@)),
                None => seq![],
            }),
            field(key, "title"@, text_of(self.title)),
            field(key, "unlock_at"@, text_of(self.unlock_at)),
        ];
        assert(self.form_view(key) == concat_upto(parts, 7)) by {
            assert(concat_upto(parts, 0) == Seq::<(Seq<char>, Seq<char>)>::empty());
            assert(concat_upto(parts, 1) =~= parts[0]);
            assert(concat_upto(parts, 2) == concat_upto(parts, 1) + parts[1]);
            assert(concat_upto(parts, 3) == concat_upto(parts, 2) + parts[2]);
            assert(concat_upto(parts, 4) == concat_upto(parts, 3) + parts[3]);
            assert(concat_upto(parts, 5) == concat_upto(parts, 4) + parts[4]);
            assert(concat_upto(parts, 6) == concat_upto(parts, 5) + parts[5]);
            assert(concat_upto(parts, 7) == concat_upto(parts, 6) + parts[6]);
        }
        assert(self.course_section_id is Some ==> self.form_view(key).contains((member_key(key, "course_section_id"@), dec(self.course_section_id.unwrap() as nat)))) by {
            if self.course_section_id is Some {
                assert(parts[0][0] == (member_key(key, "course_section_id"@), dec(self.course_section_id.unwrap() as nat)));
                lemma_part_in_concat(parts, 7, 0, (member_key(key, "course_section_id"@), dec(self.course_section_id.unwrap() as nat)));
            }
        }
        assert(self.due_at is Some ==> self.form_view(key).contains((member_key(key, "due_at"@), self.due_at.unwrap()@))) by {
            if self.due_at is Some {
                assert(parts[1][0] == (member_key(key, "due_at"@), self.due_at.unwrap()@));
                lemma_part_in_concat(parts, 7, 1, (member_key(key, "due_at"@), self.due_at.unwrap()@));
            }
        }
        assert(self.group_id is Some ==> self.form_view(key).contains((member_key(key, "group_id"@), dec(self.group_id.unwrap() as nat)))) by {
            if self.group_id is Some {
                assert(parts[2][0] == (member_key(key, "group_id"@), dec(self.group_id.unwrap() as nat)));
                lemma_part_in_concat(parts, 7, 2, (member_key(key, "group_id"@), dec(self.group_id.unwrap() as nat)));
            }
        }
        assert(self.lock_at is Some ==> self.form_view(key).contains((member_key(key, "lock_at"@), self.lock_at.unwrap()@))) by {
            if self.lock_at is Some {
                assert(parts[3][0] == (member_key(key, "lock_at"@), self.lock_at.unwrap()@));
                lemma_part_in_concat(parts, 7, 3, (member_key(key, "lock_at"@), self.lock_at.unwrap()@));
            }
        }
        assert(self.title is Some ==> self.form_view(key).contains((member_key(key, "title"@), self.title.unwrap()@))) by {
            if self.title is Some {
                assert(parts[5][0] == (member_key(key, "title"@), self.title.unwrap()@));
                lemma_part_in_concat(parts, 7, 5, (member_key(key, "title"@), self.title.unwrap()@));
            }
        }
        assert(self.unlock_at is Some ==> self.form_view(key).contains((member_key(key, "unlock_at"@), self.unlock_at.unwrap()@))) by {
            if self.unlock_at is Some {
                assert(parts[6][0] == (member_key(key, "unlock_at"@), self.unlock_at.unwrap()@));
                lemma_part_in_concat(parts, 7, 6, (member_key(key, "unlock_at"@), self.unlock_at.unwrap()@));
            }
        }
    }
}

/// Parameters for creating or updating an assignment group.
#[derive(Debug, Default)]
pub struct AssignmentGroupParams {
    pub name: Option<String>,
    /// A decimal, as the text `serde_json` prints for it (`10.0`, `2.5`).
    pub group_weight: Option<String>,
    pub position: Option<u64>,
}

impl AssignmentGroupParams {
    /// The parameters these settings give under `key`: `key[member]` for each
    /// member that is set, in the order of the member names.
    pub open spec fn form_view(self, key: Seq<char>) -> Seq<(Seq<char>, Seq<char>)> {
        field(key, "group_weight"@, text_of(self.group_weight))
        + field(key, "name"@, text_of(self.name))
        + field(key, "position"@, u64_of(self.position))
    }

    /// The parameters these settings give under `key` (what flattening
    /// `{key: settings}` gives).
    pub fn to_form(&self, key: &str) -> (r: Vec<(String, String)>)
        ensures
            pairs_view(r@) == self.form_view(key@),
    {
        let mut out: Vec<(String, String)> = Vec::new();
        add_text(&mut out, key, "group_weight", &self.group_weight);
        add_text(&mut out, key, "name", &self.name);
        add_u64(&mut out, key, "position", self.position);
        assert(pairs_view(out@) =~= self.form_view(key@));
        out
    }

    /// Every member of these settings that is set is sent under `key[member]`,
    /// with its text (a boolean as `true`/`false`, a number in decimal).
    pub proof fn lemma_form_sends_members(self, key: Seq<char>)
        ensures
            self.group_weight is Some ==> self.form_view(key).contains((member_key(key, "group_weight"@), self.group_weight.unwrap()@)),
            self.name is Some ==> self.form_view(key).contains((member_key(key, "name"@), self.name.unwrap()@)),
            self.position is Some ==> self.form_view(key).contains((member_key(key, "position"@), dec(self.position.unwrap() as nat))),
    {
        let parts = seq![
            field(key, "group_weight"@, text_of(self.group_weight)),
            field(key, "name"@, text_of(self.name)),
            field(key, "position"@, u64_of(self.position)),
        ];
        assert(self.form_view(key) == concat_upto(parts, 3)) by {
            assert(concat_upto(parts, 0) == Seq::<(Seq<char>, Seq<char>)>::empty());
            assert(concat_upto(parts, 1) =~= parts[0]);
            assert(concat_upto(parts, 2) == concat_upto(parts, 1) + parts[1]);
            assert(concat_upto(parts, 3) == concat_upto(parts, 2) + parts[2]);
        }
        assert(self.group_weight is Some ==> self.form_view(key).contains((member_key(key, "group_weight"@), self.group_weight.unwrap()@))) by {
            if self.group_weight is Some {
                assert(parts[0][0] == (member_key(key, "group_weight"@), self.group_weight.unwrap()@));
                lemma_part_in_concat(parts, 3, 0, (member_key(key, "group_weight"@), self.group_weight.unwrap()@));
            }
        }
        assert(self.name is Some ==> self.form_view(key).contains((member_key(key, "name"@), self.name.unwrap()@))) by {
            if self.name is Some {
                assert(parts[1][0] == (member_key(key, "name"@), self.name.unwrap()@));
                lemma_part_in_concat(parts, 3, 1, (member_key(key, "name"@), self.name.unwrap()@));
            }
        }
        assert(self.position is Some ==> self.form_view(key).contains((member_key(key, "position"@), dec(self.position.unwrap() as nat)))) by {
            if self.position is Some {
                assert(parts[2][0] == (member_key(key, "position"@), dec(self.position.unwrap() as nat)));
                lemma_part_in_concat(parts, 3, 2, (member_key(key, "position"@), dec(self.position.unwrap() as nat)));
            }
        }
    }
}

/// A Canvas assignment.
#[derive(Debug)]
pub struct Assignment {
    pub id: u64,
    pub course_id: Option<u64>,
    pub name: Option<String>,
    pub description: Option<String>,
    /// A time, as RFC 3339 text.
    pub due_at: Option<String>,
    /// A time, as RFC 3339 text.
    pub unlock_at: Option<String>,
    /// A time, as RFC 3339 text.
    pub lock_at: Option<String>,
    /// A decimal, as the text `serde_json` prints for it (`10.0`, `2.5`).
    pub points_possible: Option<String>,
    pub grading_type: Option<String>,
    pub assignment_group_id: Option<u64>,
    /// As the name Canvas uses for it.
    pub workflow_state: Option<String>,
    /// As the name Canvas uses for it.
    pub submission_types: Option<Vec<String>>,
    pub published: Option<bool>,
    pub muted: Option<bool>,
    pub html_url: Option<String>,
    pub has_overrides: Option<bool>,
    pub needs_grading_count: Option<u64>,
    pub position: Option<u64>,
    pub omit_from_final_grade: Option<bool>,
    pub locked_for_user: Option<bool>,
    pub requester: Option<Arc<Requester>>,
}

impl Assignment {
    /// Takes in this Assignment as fetched: it keeps `requester` for its own calls,
    /// and takes `course_id` from the scope where the scope sets it.
    pub fn adopt(&mut self, requester: Arc<Requester>, scope: &Scope)
        ensures
            final(self).requester == Some(requester),
            final(self).course_id == (match scope.course_id {
                Some(v) => v,
                None => old(self).course_id,
            }),
            final(self).id == old(self).id,
            final(self).name == old(self).name,
            final(self).description == old(self).description,
            final(self).due_at == old(self).due_at,
            final(self).unlock_at == old(self).unlock_at,
            final(self).lock_at == old(self).lock_at,
            final(self).points_possible == old(self).points_possible,
            final(self).grading_type == old(self).grading_type,
            final(self).assignment_group_id == old(self).assignment_group_id,
            final(self).workflow_state == old(self).workflow_state,
            final(self).submission_types == old(self).submission_types,
            final(self).published == old(self).published,
            final(self).muted == old(self).muted,
            final(self).html_url == old(self).html_url,
            final(self).has_overrides == old(self).has_overrides,
            final(self).needs_grading_count == old(self).needs_grading_count,
            final(self).position == old(self).position,
            final(self).omit_from_final_grade == old(self).omit_from_final_grade,
            final(self).locked_for_user == old(self).locked_for_user,
    {
        self.requester = Some(requester);
        if let Some(v) = scope.course_id {
            self.course_id = v;
        }
    }

    fn req(&self) -> (r: &Arc<Requester>)
        requires
            self.requester is Some,
        ensures
            *r == self.requester.unwrap(),
    {
        self.requester.as_ref().unwrap()
    }

    /// Edit this assignment.
    ///
    /// # Canvas API
    /// `PUT /api/v1/courses/:course_id/assignments/:id`
    pub fn edit(&self, params: AssignmentParams) -> (r: Result<Request>)
        requires
            !(self.course_id is None) ==> self.requester is Some,
        ensures
            (self.course_id is None) ==> (r matches Err(e) && is_bad_request(e, "Assignment has no course_id"@)),
            !(self.course_id is None) ==> self.requester.unwrap().sends_scoped(
                r,
                Method::Put,
                "courses/"@ + dec(self.course_id.unwrap() as nat) + "/assignments/"@ + dec(self.id as nat),
                PayloadView::Form(params.form_view("assignment"@)),
                Scope { course_id: Some(self.course_id), ..Scope::none() },
            ),
    {
        if self.course_id.is_none() {
            return Err(bad_request("Assignment has no course_id"));
        }
        let mut endpoint = String::new();
        endpoint.append("courses/");
        push_u64(&mut endpoint, self.course_id.unwrap());
        endpoint.append("/assignments/");
        push_u64(&mut endpoint, self.id);
        assert(endpoint@ =~= "courses/"@ + dec(self.course_id.unwrap() as nat) + "/assignments/"@ + dec(self.id as nat));
        let form: Vec<(String, String)> = params.to_form("assignment");
        assert(pairs_view(form@) =~= params.form_view("assignment"@));
        scoped(self.req().put(endpoint.as_str(), form), Scope { course_id: Some(self.course_id), ..Scope::empty() })
    }

    /// Delete this assignment.
    ///
    /// # Canvas API
    /// `DELETE /api/v1/courses/:course_id/assignments/:id`
    pub fn delete(&self) -> (r: Result<Request>)
        requires
            !(self.course_id is None) ==> self.requester is Some,
        ensures
            (self.course_id is None) ==> (r matches Err(e) && is_bad_request(e, "Assignment has no course_id"@)),
            !(self.course_id is None) ==> self.requester.unwrap().sends_scoped(
                r,
                Method::Delete,
                "courses/"@ + dec(self.course_id.unwrap() as nat) + "/assignments/"@ + dec(self.id as nat),
                PayloadView::Query(seq![]),
                Scope { course_id: Some(self.course_id), ..Scope::none() },
            ),
    {
        if self.course_id.is_none() {
            return Err(bad_request("Assignment has no course_id"));
        }
        let mut endpoint = String::new();
        endpoint.append("courses/");
        push_u64(&mut endpoint, self.course_id.unwrap());
        endpoint.append("/assignments/");
        push_u64(&mut endpoint, self.id);
        assert(endpoint@ =~= "courses/"@ + dec(self.course_id.unwrap() as nat) + "/assignments/"@ + dec(self.id as nat));
        let form: Vec<(String, String)> = Vec::new();
        assert(pairs_view(form@) =~= seq![]);
        scoped(self.req().delete(endpoint.as_str(), form), Scope { course_id: Some(self.course_id), ..Scope::empty() })
    }

    /// Stream all submissions for this assignment.
    ///
    /// # Canvas API
    /// `GET /api/v1/courses/:course_id/assignments/:id/submissions`
    pub fn get_submissions(&self) -> (s: PageStream<JsonValue>)
        requires
            self.requester is Some,
        ensures
            lists(s, *self.requester.unwrap(), self.requester.unwrap().base(), "courses/"@ + dec(id_or_spec(self.course_id, 0) as nat) + "/assignments/"@ + dec(self.id as nat) + "/submissions"@, seq![], Scope { course_id: Some(Some(id_or_spec(self.course_id, 0))), ..Scope::none() }),
    {
        let mut endpoint = String::new();
        endpoint.append("courses/");
        push_u64(&mut endpoint, id_or(self.course_id, 0));
        endpoint.append("/assignments/");
        push_u64(&mut endpoint, self.id);
        endpoint.append("/submissions");
        assert(endpoint@ =~= "courses/"@ + dec(id_or_spec(self.course_id, 0) as nat) + "/assignments/"@ + dec(self.id as nat) + "/submissions"@);
        let form: Vec<(String, String)> = Vec::new();
        assert(pairs_view(form@) =~= seq![]);
        PageStream::new(share(self.req()), endpoint.as_str(), form).with_scope(Scope { course_id: Some(Some(id_or(self.course_id, 0))), ..Scope::empty() })
    }

    /// Fetch a single submission by user ID.
    ///
    /// # Canvas API
    /// `GET /api/v1/courses/:course_id/assignments/:id/submissions/:user_id`
    pub fn get_submission(&self, user_id: u64) -> (r: Result<Request>)
        requires
            !(self.course_id is None) ==> self.requester is Some,
        ensures
            (self.course_id is None) ==> (r matches Err(e) && is_bad_request(e, "Assignment has no course_id"@)),
            !(self.course_id is None) ==> self.requester.unwrap().sends_scoped(
                r,
                Method::Get,
                "courses/"@ + dec(self.course_id.unwrap() as nat) + "/assignments/"@ + dec(self.id as nat) + "/submissions/"@ + dec(user_id as nat),
                PayloadView::Query(seq![]),
                Scope { course_id: Some(self.course_id), ..Scope::none() },
            ),
    {
        if self.course_id.is_none() {
            return Err(bad_request("Assignment has no course_id"));
        }
        let mut endpoint = String::new();
        endpoint.append("courses/");
        push_u64(&mut endpoint, self.course_id.unwrap());
        endpoint.append("/assignments/");
        push_u64(&mut endpoint, self.id);
        endpoint.append("/submissions/");
        push_u64(&mut endpoint, user_id);
        assert(endpoint@ =~= "courses/"@ + dec(self.course_id.unwrap() as nat) + "/assignments/"@ + dec(self.id as nat) + "/submissions/"@ + dec(user_id as nat));
        let form: Vec<(String, String)> = Vec::new();
        assert(pairs_view(form@) =~= seq![]);
        scoped(self.req().get(endpoint.as_str(), form), Scope { course_id: Some(self.course_id), ..Scope::empty() })
    }

    /// Submit this assignment.
    ///
    /// # Canvas API
    /// `POST /api/v1/courses/:course_id/assignments/:id/submissions`
    pub fn submit(&self, params: SubmitAssignmentParams) -> (r: Result<Request>)
        requires
            !(self.course_id is None) ==> self.requester is Some,
        ensures
            (self.course_id is None) ==> (r matches Err(e) && is_bad_request(e, "Assignment has no course_id"@)),
            !(self.course_id is None) ==> self.requester.unwrap().sends_scoped(
                r,
                Method::Post,
                "courses/"@ + dec(self.course_id.unwrap() as nat) + "/assignments/"@ + dec(self.id as nat) + "/submissions"@,
                PayloadView::Form(params.form_view("submission"@)),
                Scope { course_id: Some(self.course_id), ..Scope::none() },
            ),
    {
        if self.course_id.is_none() {
            return Err(bad_request("Assignment has no course_id"));
        }
        let mut endpoint = String::new();
        endpoint.append("courses/");
        push_u64(&mut endpoint, self.course_id.unwrap());
        endpoint.append("/assignments/");
        push_u64(&mut endpoint, self.id);
        endpoint.append("/submissions");
        assert(endpoint@ =~= "courses/"@ + dec(self.course_id.unwrap() as nat) + "/assignments/"@ + dec(self.id as nat) + "/submissions"@);
        let form: Vec<(String, String)> = params.to_form("submission");
        assert(pairs_view(form@) =~= params.form_view("submission"@));
        scoped(self.req().post(endpoint.as_str(), form), Scope { course_id: Some(self.course_id), ..Scope::empty() })
    }

    /// Stream all overrides for this assignment.
    ///
    /// # Canvas API
    /// `GET /api/v1/courses/:course_id/assignments/:id/overrides`
    pub fn get_overrides(&self) -> (s: PageStream<AssignmentOverride>)
        requires
            self.requester is Some,
        ensures
            lists(s, *self.requester.unwrap(), self.requester.unwrap().base(), "courses/"@ + dec(id_or_spec(self.course_id, 0) as nat) + "/assignments/"@ + dec(self.id as nat) + "/overrides"@, seq![], Scope { course_id: Some(Some(id_or_spec(self.course_id, 0))), ..Scope::none() }),
    {
        let mut endpoint = String::new();
        endpoint.append("courses/");
        push_u64(&mut endpoint, id_or(self.course_id, 0));
        endpoint.append("/assignments/");
        push_u64(&mut endpoint, self.id);
        endpoint.append("/overrides");
        assert(endpoint@ =~= "courses/"@ + dec(id_or_spec(self.course_id, 0) as nat) + "/assignments/"@ + dec(self.id as nat) + "/overrides"@);
        let form: Vec<(String, String)> = Vec::new();
        assert(pairs_view(form@) =~= seq![]);
        PageStream::new(share(self.req()), endpoint.as_str(), form).with_scope(Scope { course_id: Some(Some(id_or(self.course_id, 0))), ..Scope::empty() })
    }

    /// Fetch a single override by ID.
    ///
    /// # Canvas API
    /// `GET /api/v1/courses/:course_id/assignments/:id/overrides/:override_id`
    pub fn get_override(&self, override_id: u64) -> (r: Result<Request>)
        requires
            !(self.course_id is None) ==> self.requester is Some,
        ensures
            (self.course_id is None) ==> (r matches Err(e) && is_bad_request(e, "Assignment has no course_id"@)),
            !(self.course_id is None) ==> self.requester.unwrap().sends_scoped(
                r,
                Method::Get,
                "courses/"@ + dec(self.course_id.unwrap() as nat) + "/assignments/"@ + dec(self.id as nat) + "/overrides/"@ + dec(override_id as nat),
                PayloadView::Query(seq![]),
                Scope { course_id: Some(self.course_id), ..Scope::none() },
            ),
    {
        if self.course_id.is_none() {
            return Err(bad_request("Assignment has no course_id"));
        }
        let mut endpoint = String::new();
        endpoint.append("courses/");
        push_u64(&mut endpoint, self.course_id.unwrap());
        endpoint.append("/assignments/");
        push_u64(&mut endpoint, self.id);
        endpoint.append("/overrides/");
        push_u64(&mut endpoint, override_id);
        assert(endpoint@ =~= "courses/"@ + dec(self.course_id.unwrap() as nat) + "/assignments/"@ + dec(self.id as nat) + "/overrides/"@ + dec(override_id as nat));
        let form: Vec<(String, String)> = Vec::new();
        assert(pairs_view(form@) =~= seq![]);
        scoped(self.req().get(endpoint.as_str(), form), Scope { course_id: Some(self.course_id), ..Scope::empty() })
    }

    /// Create an override for this assignment.
    ///
    /// # Canvas API
    /// `POST /api/v1/courses/:course_id/assignments/:id/overrides`
    pub fn create_override(&self, params: AssignmentOverrideParams) -> (r: Result<Request>)
        requires
            !(self.course_id is None) ==> self.requester is Some,
        ensures
            (self.course_id is None) ==> (r matches Err(e) && is_bad_request(e, "Assignment has no course_id"@)),
            !(self.course_id is None) ==> self.requester.unwrap().sends_scoped(
                r,
                Method::Post,
                "courses/"@ + dec(self.course_id.unwrap() as nat) + "/assignments/"@ + dec(self.id as nat) + "/overrides"@,
                PayloadView::Form(params.form_view("assignment_override"@)),
                Scope { course_id: Some(self.course_id), ..Scope::none() },
            ),
    {
        if self.course_id.is_none() {
            return Err(bad_request("Assignment has no course_id"));
        }
        let mut endpoint = String::new();
        endpoint.append("courses/");
        push_u64(&mut endpoint, self.course_id.unwrap());
        endpoint.append("/assignments/");
        push_u64(&mut endpoint, self.id);
        endpoint.append("/overrides");
        assert(endpoint@ =~= "courses/"@ + dec(self.course_id.unwrap() as nat) + "/assignments/"@ + dec(self.id as nat) + "/overrides"@);
        let form: Vec<(String, String)> = params.to_form("assignment_override");
        assert(pairs_view(form@) =~= params.form_view("assignment_override"@));
        scoped(self.req().post(endpoint.as_str(), form), Scope { course_id: Some(self.course_id), ..Scope::empty() })
    }

    /// Stream all peer reviews for this assignment.
    ///
    /// # Canvas API
    /// `GET /api/v1/courses/:course_id/assignments/:id/peer_reviews`
    pub fn get_peer_reviews(&self) -> (s: PageStream<JsonValue>)
        requires
            self.requester is Some,
        ensures
            lists(s, *self.requester.unwrap(), self.requester.unwrap().base(), "courses/"@ + dec(id_or_spec(self.course_id, 0) as nat) + "/assignments/"@ + dec(self.id as nat) + "/peer_reviews"@, seq![], Scope::none()),
    {
        let mut endpoint = String::new();
        endpoint.append("courses/");
        push_u64(&mut endpoint, id_or(self.course_id, 0));
        endpoint.append("/assignments/");
        push_u64(&mut endpoint, self.id);
        endpoint.append("/peer_reviews");
        assert(endpoint@ =~= "courses/"@ + dec(id_or_spec(self.course_id, 0) as nat) + "/assignments/"@ + dec(self.id as nat) + "/peer_reviews"@);
        let form: Vec<(String, String)> = Vec::new();
        assert(pairs_view(form@) =~= seq![]);
        PageStream::new(share(self.req()), endpoint.as_str(), form).with_scope(Scope::empty())
    }

    /// Stream all gradeable students for this assignment.
    ///
    /// # Canvas API
    /// `GET /api/v1/courses/:course_id/assignments/:id/gradeable_students`
    pub fn get_gradeable_students(&self) -> (s: PageStream<JsonValue>)
        requires
            self.requester is Some,
        ensures
            lists(s, *self.requester.unwrap(), self.requester.unwrap().base(), "courses/"@ + dec(id_or_spec(self.course_id, 0) as nat) + "/assignments/"@ + dec(self.id as nat) + "/gradeable_students"@, seq![], Scope::none()),
    {
        let mut endpoint = String::new();
        endpoint.append("courses/");
        push_u64(&mut endpoint, id_or(self.course_id, 0));
        endpoint.append("/assignments/");
        push_u64(&mut endpoint, self.id);
        endpoint.append("/gradeable_students");
        assert(endpoint@ =~= "courses/"@ + dec(id_or_spec(self.course_id, 0) as nat) + "/assignments/"@ + dec(self.id as nat) + "/gradeable_students"@);
        let form: Vec<(String, String)> = Vec::new();
        assert(pairs_view(form@) =~= seq![]);
        PageStream::new(share(self.req()), endpoint.as_str(), form).with_scope(Scope::empty())
    }

    /// Set extensions for this assignment for one or more students.
    ///
    /// # Canvas API
    /// `POST /api/v1/courses/:course_id/assignments/:id/extensions`
    pub fn set_extensions(&self, params: Vec<(String, String)>) -> (r: Result<Request>)
        requires
            !(self.course_id is None) ==> self.requester is Some,
        ensures
            (self.course_id is None) ==> (r matches Err(e) && is_bad_request(e, "Assignment has no course_id"@)),
            !(self.course_id is None) ==> self.requester.unwrap().sends_scoped(
                r,
                Method::Post,
                "courses/"@ + dec(self.course_id.unwrap() as nat) + "/assignments/"@ + dec(self.id as nat) + "/extensions"@,
                PayloadView::Form(pairs_view(params@)),
                Scope::none(),
            ),
    {
        if self.course_id.is_none() {
            return Err(bad_request("Assignment has no course_id"));
        }
        let mut endpoint = String::new();
        endpoint.append("courses/");
        push_u64(&mut endpoint, self.course_id.unwrap());
        endpoint.append("/assignments/");
        push_u64(&mut endpoint, self.id);
        endpoint.append("/extensions");
        assert(endpoint@ =~= "courses/"@ + dec(self.course_id.unwrap() as nat) + "/assignments/"@ + dec(self.id as nat) + "/extensions"@);
        let form: Vec<(String, String)> = params;
        assert(pairs_view(form@) =~= pairs_view(params@));
        scoped(self.req().post(endpoint.as_str(), form), Scope::empty())
    }

    /// Stream grade change events for this assignment.
    ///
    /// # Canvas API
    /// `GET /api/v1/audit/grade_change/assignments/:id`
    pub fn get_grade_change_events(&self) -> (s: PageStream<JsonValue>)
        requires
            self.requester is Some,
        ensures
            lists(s, *self.requester.unwrap(), self.requester.unwrap().base(), "audit/grade_change/assignments/"@ + dec(self.id as nat), seq![], Scope::none()),
    {
        let mut endpoint = String::new();
        endpoint.append("audit/grade_change/assignments/");
        push_u64(&mut endpoint, self.id);
        assert(endpoint@ =~= "audit/grade_change/assignments/"@ + dec(self.id as nat));
        let form: Vec<(String, String)> = Vec::new();
        assert(pairs_view(form@) =~= seq![]);
        PageStream::new(share(self.req()), endpoint.as_str(), form).with_scope(Scope::empty())
    }

    /// Stream students selected for moderation on this assignment.
    ///
    /// # Canvas API
    /// `GET /api/v1/courses/:course_id/assignments/:id/moderated_students`
    pub fn get_students_selected_for_moderation(&self) -> (s: PageStream<JsonValue>)
        requires
            self.requester is Some,
        ensures
            lists(s, *self.requester.unwrap(), self.requester.unwrap().base(), "courses/"@ + dec(id_or_spec(self.course_id, 0) as nat) + "/assignments/"@ + dec(self.id as nat) + "/moderated_students"@, seq![], Scope::none()),
    {
        let mut endpoint = String::new();
        endpoint.append("courses/");
        push_u64(&mut endpoint, id_or(self.course_id, 0));
        endpoint.append("/assignments/");
        push_u64(&mut endpoint, self.id);
        endpoint.append("/moderated_students");
        assert(endpoint@ =~= "courses/"@ + dec(id_or_spec(self.course_id, 0) as nat) + "/assignments/"@ + dec(self.id as nat) + "/moderated_students"@);
        let form: Vec<(String, String)> = Vec::new();
        assert(pairs_view(form@) =~= seq![]);
        PageStream::new(share(self.req()), endpoint.as_str(), form).with_scope(Scope::empty())
    }

    /// Select students for moderation on this assignment.
    ///
    /// # Canvas API
    /// `POST /api/v1/courses/:course_id/assignments/:id/moderated_students`
    pub fn select_students_for_moderation(&self, student_ids: &[u64]) -> (r: Result<Request>)
        requires
            !(self.course_id is None) ==> self.requester is Some,
        ensures
            (self.course_id is None) ==> (r matches Err(e) && is_bad_request(e, "Assignment has no course_id"@)),
            !(self.course_id is None) ==> self.requester.unwrap().sends_scoped(
                r,
                Method::Post,
                "courses/"@ + dec(self.course_id.unwrap() as nat) + "/assignments/"@ + dec(self.id as nat) + "/moderated_students"@,
                PayloadView::Form(id_params_view("student_ids[]"@, student_ids@)),
                Scope::none(),
            ),
    {
        if self.course_id.is_none() {
            return Err(bad_request("Assignment has no course_id"));
        }
        let mut endpoint = String::new();
        endpoint.append("courses/");
        push_u64(&mut endpoint, self.course_id.unwrap());
        endpoint.append("/assignments/");
        push_u64(&mut endpoint, self.id);
        endpoint.append("/moderated_students");
        assert(endpoint@ =~= "courses/"@ + dec(self.course_id.unwrap() as nat) + "/assignments/"@ + dec(self.id as nat) + "/moderated_students"@);
        let form: Vec<(String, String)> = id_params("student_ids[]", student_ids);
        assert(pairs_view(form@) =~= id_params_view("student_ids[]"@, student_ids@));
        scoped(self.req().post(endpoint.as_str(), form), Scope::empty())
    }

    /// Check whether a student's submission needs a provisional grade.
    ///
    /// # Canvas API
    /// `GET /api/v1/courses/:course_id/assignments/:id/provisional_grades/status`
    pub fn get_provisional_grades_status(&self, student_id: u64) -> (r: Result<Request>)
        requires
            !(self.course_id is None) ==> self.requester is Some,
        ensures
            (self.course_id is None) ==> (r matches Err(e) && is_bad_request(e, "Assignment has no course_id"@)),
            !(self.course_id is None) ==> self.requester.unwrap().sends_scoped(
                r,
                Method::Get,
                "courses/"@ + dec(self.course_id.unwrap() as nat) + "/assignments/"@ + dec(self.id as nat) + "/provisional_grades/status"@,
                PayloadView::Query(seq![("student_id"@, dec(student_id as nat))]),
                Scope::none(),
            ),
    {
        if self.course_id.is_none() {
            return Err(bad_request("Assignment has no course_id"));
        }
        let mut endpoint = String::new();
        endpoint.append("courses/");
        push_u64(&mut endpoint, self.course_id.unwrap());
        endpoint.append("/assignments/");
        push_u64(&mut endpoint, self.id);
        endpoint.append("/provisional_grades/status");
        assert(endpoint@ =~= "courses/"@ + dec(self.course_id.unwrap() as nat) + "/assignments/"@ + dec(self.id as nat) + "/provisional_grades/status"@);
        let form: Vec<(String, String)> = vec![("student_id".to_owned(), u64_to_text(student_id))];
        assert(pairs_view(form@) =~= seq![("student_id"@, dec(student_id as nat))]);
        scoped(self.req().get(endpoint.as_str(), form), Scope::empty())
    }

    /// Select which provisional grade the student should receive.
    ///
    /// # Canvas API
    /// `PUT /api/v1/courses/:course_id/assignments/:id/provisional_grades/:provisional_grade_id/select`
    pub fn selected_provisional_grade(&self, provisional_grade_id: u64) -> (r: Result<Request>)
        requires
            !(self.course_id is None) ==> self.requester is Some,
        ensures
            (self.course_id is None) ==> (r matches Err(e) && is_bad_request(e, "Assignment has no course_id"@)),
            !(self.course_id is None) ==> self.requester.unwrap().sends_scoped(
                r,
                Method::Put,
                "courses/"@ + dec(self.course_id.unwrap() as nat) + "/assignments/"@ + dec(self.id as nat) + "/provisional_grades/"@ + dec(provisional_grade_id as nat) + "/select"@,
                PayloadView::Form(seq![]),
                Scope::none(),
            ),
    {
        if self.course_id.is_none() {
            return Err(bad_request("Assignment has no course_id"));
        }
        let mut endpoint = String::new();
        endpoint.append("courses/");
        push_u64(&mut endpoint, self.course_id.unwrap());
        endpoint.append("/assignments/");
        push_u64(&mut endpoint, self.id);
        endpoint.append("/provisional_grades/");
        push_u64(&mut endpoint, provisional_grade_id);
        endpoint.append("/select");
        assert(endpoint@ =~= "courses/"@ + dec(self.course_id.unwrap() as nat) + "/assignments/"@ + dec(self.id as nat) + "/provisional_grades/"@ + dec(provisional_grade_id as nat) + "/select"@);
        let form: Vec<(String, String)> = Vec::new();
        assert(pairs_view(form@) =~= seq![]);
        scoped(self.req().put(endpoint.as_str(), form), Scope::empty())
    }

    /// Publish provisional grades for all submissions on this assignment.
    ///
    /// # Canvas API
    /// `POST /api/v1/courses/:course_id/assignments/:id/provisional_grades/publish`
    pub fn publish_provisional_grades(&self) -> (r: Result<Request>)
        requires
            !(self.course_id is None) ==> self.requester is Some,
        ensures
            (self.course_id is None) ==> (r matches Err(e) && is_bad_request(e, "Assignment has no course_id"@)),
            !(self.course_id is None) ==> self.requester.unwrap().sends_scoped(
                r,
                Method::Post,
                "courses/"@ + dec(self.course_id.unwrap() as nat) + "/assignments/"@ + dec(self.id as nat) + "/provisional_grades/publish"@,
                PayloadView::Form(seq![]),
                Scope::none(),
            ),
    {
        if self.course_id.is_none() {
            return Err(bad_request("Assignment has no course_id"));
        }
        let mut endpoint = String::new();
        endpoint.append("courses/");
        push_u64(&mut endpoint, self.course_id.unwrap());
        endpoint.append("/assignments/");
        push_u64(&mut endpoint, self.id);
        endpoint.append("/provisional_grades/publish");
        assert(endpoint@ =~= "courses/"@ + dec(self.course_id.unwrap() as nat) + "/assignments/"@ + dec(self.id as nat) + "/provisional_grades/publish"@);
        let form: Vec<(String, String)> = Vec::new();
        assert(pairs_view(form@) =~= seq![]);
        scoped(self.req().post(endpoint.as_str(), form), Scope::empty())
    }

    /// Show whether a student's submission needs a provisional grade (anonymous grading).
    ///
    /// # Canvas API
    /// `GET /api/v1/courses/:course_id/assignments/:id/anonymous_provisional_grades/status`
    pub fn show_provisional_grades_for_student(&self, anonymous_id: &str) -> (r: Result<Request>)
        requires
            !(self.course_id is None) ==> self.requester is Some,
        ensures
            (self.course_id is None) ==> (r matches Err(e) && is_bad_request(e, "Assignment has no course_id"@)),
            !(self.course_id is None) ==> self.requester.unwrap().sends_scoped(
                r,
                Method::Get,
                "courses/"@ + dec(self.course_id.unwrap() as nat) + "/assignments/"@ + dec(self.id as nat) + "/anonymous_provisional_grades/status"@,
                PayloadView::Query(seq![("anonymous_id"@, anonymous_id@)]),
                Scope::none(),
            ),
    {
        if self.course_id.is_none() {
            return Err(bad_request("Assignment has no course_id"));
        }
        let mut endpoint = String::new();
        endpoint.append("courses/");
        push_u64(&mut endpoint, self.course_id.unwrap());
        endpoint.append("/assignments/");
        push_u64(&mut endpoint, self.id);
        endpoint.append("/anonymous_provisional_grades/status");
        assert(endpoint@ =~= "courses/"@ + dec(self.course_id.unwrap() as nat) + "/assignments/"@ + dec(self.id as nat) + "/anonymous_provisional_grades/status"@);
        let form: Vec<(String, String)> = vec![("anonymous_id".to_owned(), anonymous_id.to_owned())];
        assert(pairs_view(form@) =~= seq![("anonymous_id"@, anonymous_id@)]);
        scoped(self.req().get(endpoint.as_str(), form), Scope::empty())
    }

    /// Bulk-update grades for this assignment asynchronously.
    ///
    /// # Canvas API
    /// `POST /api/v1/courses/:course_id/assignments/:id/submissions/update_grades`
    pub fn submissions_bulk_update(&self, params: Vec<(String, String)>) -> (r: Result<Request>)
        requires
            !(self.course_id is None) ==> self.requester is Some,
        ensures
            (self.course_id is None) ==> (r matches Err(e) && is_bad_request(e, "Assignment has no course_id"@)),
            !(self.course_id is None) ==> self.requester.unwrap().sends_scoped(
                r,
                Method::Post,
                "courses/"@ + dec(self.course_id.unwrap() as nat) + "/assignments/"@ + dec(self.id as nat) + "/submissions/update_grades"@,
                PayloadView::Form(pairs_view(params@)),
                Scope::none(),
            ),
    {
        if self.course_id.is_none() {
            return Err(bad_request("Assignment has no course_id"));
        }
        let mut endpoint = String::new();
        endpoint.append("courses/");
        push_u64(&mut endpoint, self.course_id.unwrap());
        endpoint.append("/assignments/");
        push_u64(&mut endpoint, self.id);
        endpoint.append("/submissions/update_grades");
        assert(endpoint@ =~= "courses/"@ + dec(self.course_id.unwrap() as nat) + "/assignments/"@ + dec(self.id as nat) + "/submissions/update_grades"@);
        let form: Vec<(String, String)> = params;
        assert(pairs_view(form@) =~= pairs_view(params@));
        scoped(self.req().post(endpoint.as_str(), form), Scope::empty())
    }
}

/// A Canvas assignment group.
#[derive(Debug)]
pub struct AssignmentGroup {
    pub id: u64,
    pub name: Option<String>,
    /// A decimal, as the text `serde_json` prints for it (`10.0`, `2.5`).
    pub group_weight: Option<String>,
    pub position: Option<u64>,
    pub rules: Option<JsonValue>,
    pub assignments: Option<Vec<JsonValue>>,
    pub requester: Option<Arc<Requester>>,
    pub course_id: Option<u64>,
}

impl AssignmentGroup {
    /// Takes in this AssignmentGroup as fetched: it keeps `requester` for its own calls,
    /// and takes `course_id` from the scope where the scope sets it.
    pub fn adopt(&mut self, requester: Arc<Requester>, scope: &Scope)
        ensures
            final(self).requester == Some(requester),
            final(self).course_id == (match scope.course_id {
                Some(v) => v,
                None => old(self).course_id,
            }),
            final(self).id == old(self).id,
            final(self).name == old(self).name,
            final(self).group_weight == old(self).group_weight,
            final(self).position == old(self).position,
            final(self).rules == old(self).rules,
            final(self).assignments == old(self).assignments,
    {
        self.requester = Some(requester);
        if let Some(v) = scope.course_id {
            self.course_id = v;
        }
    }

    fn req(&self) -> (r: &Arc<Requester>)
        requires
            self.requester is Some,
        ensures
            *r == self.requester.unwrap(),
    {
        self.requester.as_ref().unwrap()
    }

    /// Edit this assignment group.
    ///
    /// # Canvas API
    /// `PUT /api/v1/courses/:course_id/assignment_groups/:id`
    pub fn edit(&self, params: AssignmentGroupParams) -> (r: Result<Request>)
        requires
            !(self.course_id is None) ==> self.requester is Some,
        ensures
            (self.course_id is None) ==> (r matches Err(e) && is_bad_request(e, "AssignmentGroup has no course_id"@)),
            !(self.course_id is None) ==> self.requester.unwrap().sends_scoped(
                r,
                Method::Put,
                "courses/"@ + dec(self.course_id.unwrap() as nat) + "/assignment_groups/"@ + dec(self.id as nat),
                PayloadView::Form(params.form_view("assignment_group"@)),
                Scope { course_id: Some(self.course_id), ..Scope::none() },
            ),
    {
        if self.course_id.is_none() {
            return Err(bad_request("AssignmentGroup has no course_id"));
        }
        let mut endpoint = String::new();
        endpoint.append("courses/");
        push_u64(&mut endpoint, self.course_id.unwrap());
        endpoint.append("/assignment_groups/");
        push_u64(&mut endpoint, self.id);
        assert(endpoint@ =~= "courses/"@ + dec(self.course_id.unwrap() as nat) + "/assignment_groups/"@ + dec(self.id as nat));
        let form: Vec<(String, String)> = params.to_form("assignment_group");
        assert(pairs_view(form@) =~= params.form_view("assignment_group"@));
        scoped(self.req().put(endpoint.as_str(), form), Scope { course_id: Some(self.course_id), ..Scope::empty() })
    }

    /// Delete this assignment group.
    ///
    /// # Canvas API
    /// `DELETE /api/v1/courses/:course_id/assignment_groups/:id`
    pub fn delete(&self) -> (r: Result<Request>)
        requires
            !(self.course_id is None) ==> self.requester is Some,
        ensures
            (self.course_id is None) ==> (r matches Err(e) && is_bad_request(e, "AssignmentGroup has no course_id"@)),
            !(self.course_id is None) ==> self.requester.unwrap().sends_scoped(
                r,
                Method::Delete,
                "courses/"@ + dec(self.course_id.unwrap() as nat) + "/assignment_groups/"@ + dec(self.id as nat),
                PayloadView::Query(seq![]),
                Scope { course_id: Some(self.course_id), ..Scope::none() },
            ),
    {
        if self.course_id.is_none() {
            return Err(bad_request("AssignmentGroup has no course_id"));
        }
        let mut endpoint = String::new();
        endpoint.append("courses/");
        push_u64(&mut endpoint, self.course_id.unwrap());
        endpoint.append("/assignment_groups/");
        push_u64(&mut endpoint, self.id);
        assert(endpoint@ =~= "courses/"@ + dec(self.course_id.unwrap() as nat) + "/assignment_groups/"@ + dec(self.id as nat));
        let form: Vec<(String, String)> = Vec::new();
        assert(pairs_view(form@) =~= seq![]);
        scoped(self.req().delete(endpoint.as_str(), form), Scope { course_id: Some(self.course_id), ..Scope::empty() })
    }
}

/// An override for a Canvas assignment (adjusts due dates for specific students/groups/sections).
#[derive(Debug)]
pub struct AssignmentOverride {
    pub id: u64,
    pub assignment_id: Option<u64>,
    pub student_ids: Option<Vec<u64>>,
    pub group_id: Option<u64>,
    pub course_section_id: Option<u64>,
    pub title: Option<String>,
    /// A time, as RFC 3339 text.
    pub due_at: Option<String>,
    /// A time, as RFC 3339 text.
    pub unlock_at: Option<String>,
    /// A time, as RFC 3339 text.
    pub lock_at: Option<String>,
    pub requester: Option<Arc<Requester>>,
    pub course_id: Option<u64>,
}

impl AssignmentOverride {
    /// Takes in this AssignmentOverride as fetched: it keeps `requester` for its own calls,
    /// and takes `course_id` from the scope where the scope sets it.
    pub fn adopt(&mut self, requester: Arc<Requester>, scope: &Scope)
        ensures
            final(self).requester == Some(requester),
            final(self).course_id == (match scope.course_id {
                Some(v) => v,
                None => old(self).course_id,
            }),
            final(self).id == old(self).id,
            final(self).assignment_id == old(self).assignment_id,
            final(self).student_ids == old(self).student_ids,
            final(self).group_id == old(self).group_id,
            final(self).course_section_id == old(self).course_section_id,
            final(self).title == old(self).title,
            final(self).due_at == old(self).due_at,
            final(self).unlock_at == old(self).unlock_at,
            final(self).lock_at == old(self).lock_at,
    {
        self.requester = Some(requester);
        if let Some(v) = scope.course_id {
            self.course_id = v;
        }
    }

    fn req(&self) -> (r: &Arc<Requester>)
        requires
            self.requester is Some,
        ensures
            *r == self.requester.unwrap(),
    {
        self.requester.as_ref().unwrap()
    }

    /// Edit this override.
    ///
    /// # Canvas API
    /// `PUT /api/v1/courses/:course_id/assignments/:assignment_id/overrides/:id`
    pub fn edit(&self, params: AssignmentOverrideParams) -> (r: Result<Request>)
        requires
            !(self.course_id is None) && !(self.assignment_id is None) ==> self.requester is Some,
        ensures
            (self.course_id is None) ==> (r matches Err(e) && is_bad_request(e, "AssignmentOverride has no course_id"@)),
            !(self.course_id is None) && (self.assignment_id is None) ==> (r matches Err(e) && is_bad_request(e, "AssignmentOverride has no assignment_id"@)),
            !(self.course_id is None) && !(self.assignment_id is None) ==> self.requester.unwrap().sends_scoped(
                r,
                Method::Put,
                "courses/"@ + dec(self.course_id.unwrap() as nat) + "/assignments/"@ + dec(self.assignment_id.unwrap() as nat) + "/overrides/"@ + dec(self.id as nat),
                PayloadView::Form(params.form_view("assignment_override"@)),
                Scope { course_id: Some(self.course_id), ..Scope::none() },
            ),
    {
        if self.course_id.is_none() {
            return Err(bad_request("AssignmentOverride has no course_id"));
        }
        if self.assignment_id.is_none() {
            return Err(bad_request("AssignmentOverride has no assignment_id"));
        }
        let mut endpoint = String::new();
        endpoint.append("courses/");
        push_u64(&mut endpoint, self.course_id.unwrap());
        endpoint.append("/assignments/");
        push_u64(&mut endpoint, self.assignment_id.unwrap());
        endpoint.append("/overrides/");
        push_u64(&mut endpoint, self.id);
        assert(endpoint@ =~= "courses/"@ + dec(self.course_id.unwrap() as nat) + "/assignments/"@ + dec(self.assignment_id.unwrap() as nat) + "/overrides/"@ + dec(self.id as nat));
        let form: Vec<(String, String)> = params.to_form("assignment_override");
        assert(pairs_view(form@) =~= params.form_view("assignment_override"@));
        scoped(self.req().put(endpoint.as_str(), form), Scope { course_id: Some(self.course_id), ..Scope::empty() })
    }

    /// Delete this override.
    ///
    /// # Canvas API
    /// `DELETE /api/v1/courses/:course_id/assignments/:assignment_id/overrides/:id`
    pub fn delete(&self) -> (r: Result<Request>)
        requires
            !(self.course_id is None) && !(self.assignment_id is None) ==> self.requester is Some,
        ensures
            (self.course_id is None) ==> (r matches Err(e) && is_bad_request(e, "AssignmentOverride has no course_id"@)),
            !(self.course_id is None) && (self.assignment_id is None) ==> (r matches Err(e) && is_bad_request(e, "AssignmentOverride has no assignment_id"@)),
            !(self.course_id is None) && !(self.assignment_id is None) ==> self.requester.unwrap().sends_scoped(
                r,
                Method::Delete,
                "courses/"@ + dec(self.course_id.unwrap() as nat) + "/assignments/"@ + dec(self.assignment_id.unwrap() as nat) + "/overrides/"@ + dec(self.id as nat),
                PayloadView::Query(seq![]),
                Scope { course_id: Some(self.course_id), ..Scope::none() },
            ),
    {
        if self.course_id.is_none() {
            return Err(bad_request("AssignmentOverride has no course_id"));
        }
        if self.assignment_id.is_none() {
            return Err(bad_request("AssignmentOverride has no assignment_id"));
        }
        let mut endpoint = String::new();
        endpoint.append("courses/");
        push_u64(&mut endpoint, self.course_id.unwrap());
        endpoint.append("/assignments/");
        push_u64(&mut endpoint, self.assignment_id.unwrap());
        endpoint.append("/overrides/");
        push_u64(&mut endpoint, self.id);
        assert(endpoint@ =~= "courses/"@ + dec(self.course_id.unwrap() as nat) + "/assignments/"@ + dec(self.assignment_id.unwrap() as nat) + "/overrides/"@ + dec(self.id as nat));
        let form: Vec<(String, String)> = Vec::new();
        assert(pairs_view(form@) =~= seq![]);
        scoped(self.req().delete(endpoint.as_str(), form), Scope { course_id: Some(self.course_id), ..Scope::empty() })
    }
}

} // verus!
