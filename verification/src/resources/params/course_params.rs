use vstd::prelude::*;
use crate::params::{
    add_bool, add_text, add_u64, bool_of, concat_upto, field, lemma_part_in_concat, member_key,
    pairs_view, text_of, u64_of,
};
use crate::text::{bool_text, dec};

verus! {

#[derive(Debug, Default)]
pub struct CreateCourseParams {
    pub name: Option<String>,
    pub course_code: Option<String>,
    /// A time, as RFC 3339 text.
    pub start_at: Option<String>,
    /// A time, as RFC 3339 text.
    pub end_at: Option<String>,
    pub license: Option<String>,
    pub is_public: Option<bool>,
    pub is_public_to_auth_users: Option<bool>,
    pub public_syllabus: Option<bool>,
    pub public_description: Option<String>,
    pub allow_student_wiki_edits: Option<bool>,
    pub allow_wiki_comments: Option<bool>,
    pub allow_student_forum_attachments: Option<bool>,
    pub open_enrollment: Option<bool>,
    pub self_enrollment: Option<bool>,
    pub restrict_enrollments_to_course_dates: Option<bool>,
    pub term_id: Option<u64>,
    pub sis_course_id: Option<String>,
    pub hide_final_grades: Option<bool>,
    pub apply_assignment_group_weights: Option<bool>,
    pub time_zone: Option<String>,
}

impl CreateCourseParams {
    /// The parameters these settings give under `key`: `key[member]` for each
    /// member that is set, in the order of the member names.
    pub open spec fn form_view(self, key: Seq<char>) -> Seq<(Seq<char>, Seq<char>)> {
        field(key, "allow_student_forum_attachments"@, bool_of(self.allow_student_forum_attachments))
        + field(key, "allow_student_wiki_edits"@, bool_of(self.allow_student_wiki_edits))
        + field(key, "allow_wiki_comments"@, bool_of(self.allow_wiki_comments))
        + field(key, "apply_assignment_group_weights"@, bool_of(self.apply_assignment_group_weights))
        + field(key, "course_code"@, text_of(self.course_code))
        + field(key, "end_at"@, text_of(self.end_at))
        + field(key, "hide_final_grades"@, bool_of(self.hide_final_grades))
        + field(key, "is_public"@, bool_of(self.is_public))
        + field(key, "is_public_to_auth_users"@, bool_of(self.is_public_to_auth_users))
        + field(key, "license"@, text_of(self.license))
        + field(key, "name"@, text_of(self.name))
        + field(key, "open_enrollment"@, bool_of(self.open_enrollment))
        + field(key, "public_description"@, text_of(self.public_description))
        + field(key, "public_syllabus"@, bool_of(self.public_syllabus))
        + field(key, "restrict_enrollments_to_course_dates"@, bool_of(self.restrict_enrollments_to_course_dates))
        + field(key, "self_enrollment"@, bool_of(self.self_enrollment))
        + field(key, "sis_course_id"@, text_of(self.sis_course_id))
        + field(key, "start_at"@, text_of(self.start_at))
        + field(key, "term_id"@, u64_of(self.term_id))
        + field(key, "time_zone"@, text_of(self.time_zone))
    }

    /// The parameters these settings give under `key` (what flattening
    /// `{key: settings}` gives).
    pub fn to_form(&self, key: &str) -> (r: Vec<(String, String)>)
        ensures
            pairs_view(r@) == self.form_view(key@),
    {
        let mut out: Vec<(String, String)> = Vec::new();
        add_bool(&mut out, key, "allow_student_forum_attachments", self.allow_student_forum_attachments);
        add_bool(&mut out, key, "allow_student_wiki_edits", self.allow_student_wiki_edits);
        add_bool(&mut out, key, "allow_wiki_comments", self.allow_wiki_comments);
        add_bool(&mut out, key, "apply_assignment_group_weights", self.apply_assignment_group_weights);
        add_text(&mut out, key, "course_code", &self.course_code);
        add_text(&mut out, key, "end_at", &self.end_at);
        add_bool(&mut out, key, "hide_final_grades", self.hide_final_grades);
        add_bool(&mut out, key, "is_public", self.is_public);
        add_bool(&mut out, key, "is_public_to_auth_users", self.is_public_to_auth_users);
        add_text(&mut out, key, "license", &self.license);
        add_text(&mut out, key, "name", &self.name);
        add_bool(&mut out, key, "open_enrollment", self.open_enrollment);
        add_text(&mut out, key, "public_description", &self.public_description);
        add_bool(&mut out, key, "public_syllabus", self.public_syllabus);
        add_bool(&mut out, key, "restrict_enrollments_to_course_dates", self.restrict_enrollments_to_course_dates);
        add_bool(&mut out, key, "self_enrollment", self.self_enrollment);
        add_text(&mut out, key, "sis_course_id", &self.sis_course_id);
        add_text(&mut out, key, "start_at", &self.start_at);
        add_u64(&mut out, key, "term_id", self.term_id);
        add_text(&mut out, key, "time_zone", &self.time_zone);
        assert(pairs_view(out@) =~= self.form_view(key@));
        out
    }

    /// Every member of these settings that is set is sent under `key[member]`,
    /// with its text (a boolean as `true`/`false`, a number in decimal).
    pub proof fn lemma_form_sends_members(self, key: Seq<char>)
        ensures
            self.allow_student_forum_attachments is Some ==> self.form_view(key).contains((member_key(key, "allow_student_forum_attachments"@), bool_text(self.allow_student_forum_attachments.unwrap()))),
            self.allow_student_wiki_edits is Some ==> self.form_view(key).contains((member_key(key, "allow_student_wiki_edits"@), bool_text(self.allow_student_wiki_edits.unwrap()))),
            self.allow_wiki_comments is Some ==> self.form_view(key).contains((member_key(key, "allow_wiki_comments"@), bool_text(self.allow_wiki_comments.unwrap()))),
            self.apply_assignment_group_weights is Some ==> self.form_view(key).contains((member_key(key, "apply_assignment_group_weights"@), bool_text(self.apply_assignment_group_weights.unwrap()))),
            self.course_code is Some ==> self.form_view(key).contains((member_key(key, "course_code"@), self.course_code.unwrap()@)),
            self.end_at is Some ==> self.form_view(key).contains((member_key(key, "end_at"@), self.end_at.unwrap()@)),
            self.hide_final_grades is Some ==> self.form_view(key).contains((member_key(key, "hide_final_grades"@), bool_text(self.hide_final_grades.unwrap()))),
            self.is_public is Some ==> self.form_view(key).contains((member_key(key, "is_public"@), bool_text(self.is_public.unwrap()))),
            self.is_public_to_auth_users is Some ==> self.form_view(key).contains((member_key(key, "is_public_to_auth_users"@), bool_text(self.is_public_to_auth_users.unwrap()))),
            self.license is Some ==> self.form_view(key).contains((member_key(key, "license"@), self.license.unwrap()@)),
            self.name is Some ==> self.form_view(key).contains((member_key(key, "name"@), self.name.unwrap()@)),
            self.open_enrollment is Some ==> self.form_view(key).contains((member_key(key, "open_enrollment"@), bool_text(self.open_enrollment.unwrap()))),
            self.public_description is Some ==> self.form_view(key).contains((member_key(key, "public_description"@), self.public_description.unwrap()@)),
            self.public_syllabus is Some ==> self.form_view(key).contains((member_key(key, "public_syllabus"@), bool_text(self.public_syllabus.unwrap()))),
            self.restrict_enrollments_to_course_dates is Some ==> self.form_view(key).contains((member_key(key, "restrict_enrollments_to_course_dates"@), bool_text(self.restrict_enrollments_to_course_dates.unwrap()))),
            self.self_enrollment is Some ==> self.form_view(key).contains((member_key(key, "self_enrollment"@), bool_text(self.self_enrollment.unwrap()))),
            self.sis_course_id is Some ==> self.form_view(key).contains((member_key(key, "sis_course_id"@), self.sis_course_id.unwrap()@)),
            self.start_at is Some ==> self.form_view(key).contains((member_key(key, "start_at"@), self.start_at.unwrap()@)),
            self.term_id is Some ==> self.form_view(key).contains((member_key(key, "term_id"@), dec(self.term_id.unwrap() as nat))),
            self.time_zone is Some ==> self.form_view(key).contains((member_key(key, "time_zone"@), self.time_zone.unwrap()@)),
    {
        let parts = self.form_parts(key);
        assert(self.allow_student_forum_attachments is Some ==> self.form_view(key).contains((member_key(key, "allow_student_forum_attachments"@), bool_text(self.allow_student_forum_attachments.unwrap())))) by {
            if self.allow_student_forum_attachments is Some {
                assert(parts[0][0] == (member_key(key, "allow_student_forum_attachments"@), bool_text(self.allow_student_forum_attachments.unwrap())));
                lemma_part_in_concat(parts, 20, 0, (member_key(key, "allow_student_forum_attachments"@), bool_text(self.allow_student_forum_attachments.unwrap())));
            }
        }
        assert(self.allow_student_wiki_edits is Some ==> self.form_view(key).contains((member_key(key, "allow_student_wiki_edits"@), bool_text(self.allow_student_wiki_edits.unwrap())))) by {
            if self.allow_student_wiki_edits is Some {
                assert(parts[1][0] == (member_key(key, "allow_student_wiki_edits"@), bool_text(self.allow_student_wiki_edits.unwrap())));
                lemma_part_in_concat(parts, 20, 1, (member_key(key, "allow_student_wiki_edits"@), bool_text(self.allow_student_wiki_edits.unwrap())));
            }
        }
        assert(self.allow_wiki_comments is Some ==> self.form_view(key).contains((member_key(key, "allow_wiki_comments"@), bool_text(self.allow_wiki_comments.unwrap())))) by {
            if self.allow_wiki_comments is Some {
                assert(parts[2][0] == (member_key(key, "allow_wiki_comments"@), bool_text(self.allow_wiki_comments.unwrap())));
                lemma_part_in_concat(parts, 20, 2, (member_key(key, "allow_wiki_comments"@), bool_text(self.allow_wiki_comments.unwrap())));
            }
        }
        assert(self.apply_assignment_group_weights is Some ==> self.form_view(key).contains((member_key(key, "apply_assignment_group_weights"@), bool_text(self.apply_assignment_group_weights.unwrap())))) by {
            if self.apply_assignment_group_weights is Some {
                assert(parts[3][0] == (member_key(key, "apply_assignment_group_weights"@), bool_text(self.apply_assignment_group_weights.unwrap())));
                lemma_part_in_concat(parts, 20, 3, (member_key(key, "apply_assignment_group_weights"@), bool_text(self.apply_assignment_group_weights.unwrap())));
            }
        }
        assert(self.course_code is Some ==> self.form_view(key).contains((member_key(key, "course_code"@), self.course_code.unwrap()@))) by {
            if self.course_code is Some {
                assert(parts[4][0] == (member_key(key, "course_code"@), self.course_code.unwrap()@));
                lemma_part_in_concat(parts, 20, 4, (member_key(key, "course_code"@), self.course_code.unwrap()@));
            }
        }
        assert(self.end_at is Some ==> self.form_view(key).contains((member_key(key, "end_at"@), self.end_at.unwrap()@))) by {
            if self.end_at is Some {
                assert(parts[5][0] == (member_key(key, "end_at"@), self.end_at.unwrap()@));
                lemma_part_in_concat(parts, 20, 5, (member_key(key, "end_at"@), self.end_at.unwrap()@));
            }
        }
        assert(self.hide_final_grades is Some ==> self.form_view(key).contains((member_key(key, "hide_final_grades"@), bool_text(self.hide_final_grades.unwrap())))) by {
            if self.hide_final_grades is Some {
                assert(parts[6][0] == (member_key(key, "hide_final_grades"@), bool_text(self.hide_final_grades.unwrap())));
                lemma_part_in_concat(parts, 20, 6, (member_key(key, "hide_final_grades"@), bool_text(self.hide_final_grades.unwrap())));
            }
        }
        assert(self.is_public is Some ==> self.form_view(key).contains((member_key(key, "is_public"@), bool_text(self.is_public.unwrap())))) by {
            if self.is_public is Some {
                assert(parts[7][0] == (member_key(key, "is_public"@), bool_text(self.is_public.unwrap())));
                lemma_part_in_concat(parts, 20, 7, (member_key(key, "is_public"@), bool_text(self.is_public.unwrap())));
            }
        }
        assert(self.is_public_to_auth_users is Some ==> self.form_view(key).contains((member_key(key, "is_public_to_auth_users"@), bool_text(self.is_public_to_auth_users.unwrap())))) by {
            if self.is_public_to_auth_users is Some {
                assert(parts[8][0] == (member_key(key, "is_public_to_auth_users"@), bool_text(self.is_public_to_auth_users.unwrap())));
                lemma_part_in_concat(parts, 20, 8, (member_key(key, "is_public_to_auth_users"@), bool_text(self.is_public_to_auth_users.unwrap())));
            }
        }
        assert(self.license is Some ==> self.form_view(key).contains((member_key(key, "license"@), self.license.unwrap()@))) by {
            if self.license is Some {
                assert(parts[9][0] == (member_key(key, "license"@), self.license.unwrap()@));
                lemma_part_in_concat(parts, 20, 9, (member_key(key, "license"@), self.license.unwrap()@));
            }
        }
        assert(self.name is Some ==> self.form_view(key).contains((member_key(key, "name"@), self.name.unwrap()@))) by {
            if self.name is Some {
                assert(parts[10][0] == (member_key(key, "name"@), self.name.unwrap()@));
                lemma_part_in_concat(parts, 20, 10, (member_key(key, "name"@), self.name.unwrap()@));
            }
        }
        assert(self.open_enrollment is Some ==> self.form_view(key).contains((member_key(key, "open_enrollment"@), bool_text(self.open_enrollment.unwrap())))) by {
            if self.open_enrollment is Some {
                assert(parts[11][0] == (member_key(key, "open_enrollment"@), bool_text(self.open_enrollment.unwrap())));
                lemma_part_in_concat(parts, 20, 11, (member_key(key, "open_enrollment"@), bool_text(self.open_enrollment.unwrap())));
            }
        }
        assert(self.public_description is Some ==> self.form_view(key).contains((member_key(key, "public_description"@), self.public_description.unwrap()@))) by {
            if self.public_description is Some {
                assert(parts[12][0] == (member_key(key, "public_description"@), self.public_description.unwrap()@));
                lemma_part_in_concat(parts, 20, 12, (member_key(key, "public_description"@), self.public_description.unwrap()@));
            }
        }
        assert(self.public_syllabus is Some ==> self.form_view(key).contains((member_key(key, "public_syllabus"@), bool_text(self.public_syllabus.unwrap())))) by {
            if self.public_syllabus is Some {
                assert(parts[13][0] == (member_key(key, "public_syllabus"@), bool_text(self.public_syllabus.unwrap())));
                lemma_part_in_concat(parts, 20, 13, (member_key(key, "public_syllabus"@), bool_text(self.public_syllabus.unwrap())));
            }
        }
        assert(self.restrict_enrollments_to_course_dates is Some ==> self.form_view(key).contains((member_key(key, "restrict_enrollments_to_course_dates"@), bool_text(self.restrict_enrollments_to_course_dates.unwrap())))) by {
            if self.restrict_enrollments_to_course_dates is Some {
                assert(parts[14][0] == (member_key(key, "restrict_enrollments_to_course_dates"@), bool_text(self.restrict_enrollments_to_course_dates.unwrap())));
                lemma_part_in_concat(parts, 20, 14, (member_key(key, "restrict_enrollments_to_course_dates"@), bool_text(self.restrict_enrollments_to_course_dates.unwrap())));
            }
        }
        assert(self.self_enrollment is Some ==> self.form_view(key).contains((member_key(key, "self_enrollment"@), bool_text(self.self_enrollment.unwrap())))) by {
            if self.self_enrollment is Some {
                assert(parts[15][0] == (member_key(key, "self_enrollment"@), bool_text(self.self_enrollment.unwrap())));
                lemma_part_in_concat(parts, 20, 15, (member_key(key, "self_enrollment"@), bool_text(self.self_enrollment.unwrap())));
            }
        }
        assert(self.sis_course_id is Some ==> self.form_view(key).contains((member_key(key, "sis_course_id"@), self.sis_course_id.unwrap()@))) by {
            if self.sis_course_id is Some {
                assert(parts[16][0] == (member_key(key, "sis_course_id"@), self.sis_course_id.unwrap()@));
                lemma_part_in_concat(parts, 20, 16, (member_key(key, "sis_course_id"@), self.sis_course_id.unwrap()@));
            }
        }
        assert(self.start_at is Some ==> self.form_view(key).contains((member_key(key, "start_at"@), self.start_at.unwrap()@))) by {
            if self.start_at is Some {
                assert(parts[17][0] == (member_key(key, "start_at"@), self.start_at.unwrap()@));
                lemma_part_in_concat(parts, 20, 17, (member_key(key, "start_at"@), self.start_at.unwrap()@));
            }
        }
        assert(self.term_id is Some ==> self.form_view(key).contains((member_key(key, "term_id"@), dec(self.term_id.unwrap() as nat)))) by {
            if self.term_id is Some {
                assert(parts[18][0] == (member_key(key, "term_id"@), dec(self.term_id.unwrap() as nat)));
                lemma_part_in_concat(parts, 20, 18, (member_key(key, "term_id"@), dec(self.term_id.unwrap() as nat)));
            }
        }
        assert(self.time_zone is Some ==> self.form_view(key).contains((member_key(key, "time_zone"@), self.time_zone.unwrap()@))) by {
            if self.time_zone is Some {
                assert(parts[19][0] == (member_key(key, "time_zone"@), self.time_zone.unwrap()@));
                lemma_part_in_concat(parts, 20, 19, (member_key(key, "time_zone"@), self.time_zone.unwrap()@));
            }
        }
    }

    /// The parts of the parameters, member by member in the order of the
    /// member names; together they are the parameters.
    #[verifier::rlimit(40)]
    proof fn form_parts(self, key: Seq<char>) -> (parts: Seq<Seq<(Seq<char>, Seq<char>)>>)
        ensures
            parts.len() == 20,
            self.form_view(key) == concat_upto(parts, 20),
            parts[0] == field(key, "allow_student_forum_attachments"@, bool_of(self.allow_student_forum_attachments)),
            parts[1] == field(key, "allow_student_wiki_edits"@, bool_of(self.allow_student_wiki_edits)),
            parts[2] == field(key, "allow_wiki_comments"@, bool_of(self.allow_wiki_comments)),
            parts[3] == field(key, "apply_assignment_group_weights"@, bool_of(self.apply_assignment_group_weights)),
            parts[4] == field(key, "course_code"@, text_of(self.course_code)),
            parts[5] == field(key, "end_at"@, text_of(self.end_at)),
            parts[6] == field(key, "hide_final_grades"@, bool_of(self.hide_final_grades)),
            parts[7] == field(key, "is_public"@, bool_of(self.is_public)),
            parts[8] == field(key, "is_public_to_auth_users"@, bool_of(self.is_public_to_auth_users)),
            parts[9] == field(key, "license"@, text_of(self.license)),
            parts[10] == field(key, "name"@, text_of(self.name)),
            parts[11] == field(key, "open_enrollment"@, bool_of(self.open_enrollment)),
            parts[12] == field(key, "public_description"@, text_of(self.public_description)),
            parts[13] == field(key, "public_syllabus"@, bool_of(self.public_syllabus)),
            parts[14] == field(key, "restrict_enrollments_to_course_dates"@, bool_of(self.restrict_enrollments_to_course_dates)),
            parts[15] == field(key, "self_enrollment"@, bool_of(self.self_enrollment)),
            parts[16] == field(key, "sis_course_id"@, text_of(self.sis_course_id)),
            parts[17] == field(key, "start_at"@, text_of(self.start_at)),
            parts[18] == field(key, "term_id"@, u64_of(self.term_id)),
            parts[19] == field(key, "time_zone"@, text_of(self.time_zone)),
    {
        let parts = seq![
            field(key, "allow_student_forum_attachments"@, bool_of(self.allow_student_forum_attachments)),
            field(key, "allow_student_wiki_edits"@, bool_of(self.allow_student_wiki_edits)),
            field(key, "allow_wiki_comments"@, bool_of(self.allow_wiki_comments)),
            field(key, "apply_assignment_group_weights"@, bool_of(self.apply_assignment_group_weights)),
            field(key, "course_code"@, text_of(self.course_code)),
            field(key, "end_at"@, text_of(self.end_at)),
            field(key, "hide_final_grades"@, bool_of(self.hide_final_grades)),
            field(key, "is_public"@, bool_of(self.is_public)),
            field(key, "is_public_to_auth_users"@, bool_of(self.is_public_to_auth_users)),
            field(key, "license"@, text_of(self.license)),
            field(key, "name"@, text_of(self.name)),
            field(key, "open_enrollment"@, bool_of(self.open_enrollment)),
            field(key, "public_description"@, text_of(self.public_description)),
            field(key, "public_syllabus"@, bool_of(self.public_syllabus)),
            field(key, "restrict_enrollments_to_course_dates"@, bool_of(self.restrict_enrollments_to_course_dates)),
            field(key, "self_enrollment"@, bool_of(self.self_enrollment)),
            field(key, "sis_course_id"@, text_of(self.sis_course_id)),
            field(key, "start_at"@, text_of(self.start_at)),
            field(key, "term_id"@, u64_of(self.term_id)),
            field(key, "time_zone"@, text_of(self.time_zone)),
        ];
        assert(concat_upto(parts, 0) == Seq::<(Seq<char>, Seq<char>)>::empty());
        assert(concat_upto(parts, 1) =~= parts[0]);
        assert(concat_upto(parts, 2) == concat_upto(parts, 1) + parts[1]);
        assert(concat_upto(parts, 3) == concat_upto(parts, 2) + parts[2]);
        assert(concat_upto(parts, 4) == concat_upto(parts, 3) + parts[3]);
        assert(concat_upto(parts, 5) == concat_upto(parts, 4) + parts[4]);
        assert(concat_upto(parts, 6) == concat_upto(parts, 5) + parts[5]);
        assert(concat_upto(parts, 7) == concat_upto(parts, 6) + parts[6]);
        assert(concat_upto(parts, 8) == concat_upto(parts, 7) + parts[7]);
        assert(concat_upto(parts, 9) == concat_upto(parts, 8) + parts[8]);
        assert(concat_upto(parts, 10) == concat_upto(parts, 9) + parts[9]);
        assert(concat_upto(parts, 11) == concat_upto(parts, 10) + parts[10]);
        assert(concat_upto(parts, 12) == concat_upto(parts, 11) + parts[11]);
        assert(concat_upto(parts, 13) == concat_upto(parts, 12) + parts[12]);
        assert(concat_upto(parts, 14) == concat_upto(parts, 13) + parts[13]);
        assert(concat_upto(parts, 15) == concat_upto(parts, 14) + parts[14]);
        assert(concat_upto(parts, 16) == concat_upto(parts, 15) + parts[15]);
        assert(concat_upto(parts, 17) == concat_upto(parts, 16) + parts[16]);
        assert(concat_upto(parts, 18) == concat_upto(parts, 17) + parts[17]);
        assert(concat_upto(parts, 19) == concat_upto(parts, 18) + parts[18]);
        assert(concat_upto(parts, 20) == concat_upto(parts, 19) + parts[19]);
        parts
    }
}

#[derive(Debug, Default)]
pub struct UpdateCourseParams {
    pub name: Option<String>,
    pub course_code: Option<String>,
    /// A time, as RFC 3339 text.
    pub start_at: Option<String>,
    /// A time, as RFC 3339 text.
    pub end_at: Option<String>,
    pub syllabus_body: Option<String>,
    pub hide_final_grades: Option<bool>,
    pub time_zone: Option<String>,
}

impl UpdateCourseParams {
    /// The parameters these settings give under `key`: `key[member]` for each
    /// member that is set, in the order of the member names.
    pub open spec fn form_view(self, key: Seq<char>) -> Seq<(Seq<char>, Seq<char>)> {
        field(key, "course_code"@, text_of(self.course_code))
        + field(key, "end_at"@, text_of(self.end_at))
        + field(key, "hide_final_grades"@, bool_of(self.hide_final_grades))
        + field(key, "name"@, text_of(self.name))
        + field(key, "start_at"@, text_of(self.start_at))
        + field(key, "syllabus_body"@, text_of(self.syllabus_body))
        + field(key, "time_zone"@, text_of(self.time_zone))
    }

    /// The parameters these settings give under `key` (what flattening
    /// `{key: settings}` gives).
    pub fn to_form(&self, key: &str) -> (r: Vec<(String, String)>)
        ensures
            pairs_view(r@) == self.form_view(key@),
    {
        let mut out: Vec<(String, String)> = Vec::new();
        add_text(&mut out, key, "course_code", &self.course_code);
        add_text(&mut out, key, "end_at", &self.end_at);
        add_bool(&mut out, key, "hide_final_grades", self.hide_final_grades);
        add_text(&mut out, key, "name", &self.name);
        add_text(&mut out, key, "start_at", &self.start_at);
        add_text(&mut out, key, "syllabus_body", &self.syllabus_body);
        add_text(&mut out, key, "time_zone", &self.time_zone);
        assert(pairs_view(out@) =~= self.form_view(key@));
        out
    }

    /// Every member of these settings that is set is sent under `key[member]`,
    /// with its text (a boolean as `true`/`false`, a number in decimal).
    pub proof fn lemma_form_sends_members(self, key: Seq<char>)
        ensures
            self.course_code is Some ==> self.form_view(key).contains((member_key(key, "course_code"@), self.course_code.unwrap()@)),
            self.end_at is Some ==> self.form_view(key).contains((member_key(key, "end_at"@), self.end_at.unwrap()@)),
            self.hide_final_grades is Some ==> self.form_view(key).contains((member_key(key, "hide_final_grades"@), bool_text(self.hide_final_grades.unwrap()))),
            self.name is Some ==> self.form_view(key).contains((member_key(key, "name"@), self.name.unwrap()@)),
            self.start_at is Some ==> self.form_view(key).contains((member_key(key, "start_at"@), self.start_at.unwrap()@)),
            self.syllabus_body is Some ==> self.form_view(key).contains((member_key(key, "syllabus_body"@), self.syllabus_body.unwrap()@)),
            self.time_zone is Some ==> self.form_view(key).contains((member_key(key, "time_zone"@), self.time_zone.unwrap()@)),
    {
        let parts = seq![
            field(key, "course_code"@, text_of(self.course_code)),
            field(key, "end_at"@, text_of(self.end_at)),
            field(key, "hide_final_grades"@, bool_of(self.hide_final_grades)),
            field(key, "name"@, text_of(self.name)),
            field(key, "start_at"@, text_of(self.start_at)),
            field(key, "syllabus_body"@, text_of(self.syllabus_body)),
            field(key, "time_zone"@, text_of(self.time_zone)),
        ];
        assert(self.form_view(key) == concat_upto(parts, 7)) by {
            assert(concat_upto(parts, 0) == Seq::<(Seq<char>, Seq<char>)>::empty());
            assert(concat_upto(parts, 1) =~= parts[0]);
            assert(concat_upto(parts, 2) == concat_upto(parts, 1) + parts[1]);
            assert(concat_upto(parts, 3) == concat_upto(parts, 2) + parts[2]);
            assert(concat_upto(parts, 4) == concat_upto(parts, 3) + parts[3]);
            assert(concat_upto(parts, 5) == concat_upto(parts, 4) + parts[4]);
            assert(concat_upto(parts, 6) == concat_upto(parts, 5) + parts[5]);
            assert(concat_upto(parts, 7) == concat_upto(parts, 6) + parts[6]);
        }
        assert(self.course_code is Some ==> self.form_view(key).contains((member_key(key, "course_code"@), self.course_code.unwrap()@))) by {
            if self.course_code is Some {
                assert(parts[0][0] == (member_key(key, "course_code"@), self.course_code.unwrap()@));
                lemma_part_in_concat(parts, 7, 0, (member_key(key, "course_code"@), self.course_code.unwrap()@));
            }
        }
        assert(self.end_at is Some ==> self.form_view(key).contains((member_key(key, "end_at"@), self.end_at.unwrap()@))) by {
            if self.end_at is Some {
                assert(parts[1][0] == (member_key(key, "end_at"@), self.end_at.unwrap()@));
                lemma_part_in_concat(parts, 7, 1, (member_key(key, "end_at"@), self.end_at.unwrap()@));
            }
        }
        assert(self.hide_final_grades is Some ==> self.form_view(key).contains((member_key(key, "hide_final_grades"@), bool_text(self.hide_final_grades.unwrap())))) by {
            if self.hide_final_grades is Some {
                assert(parts[2][0] == (member_key(key, "hide_final_grades"@), bool_text(self.hide_final_grades.unwrap())));
                lemma_part_in_concat(parts, 7, 2, (member_key(key, "hide_final_grades"@), bool_text(self.hide_final_grades.unwrap())));
            }
        }
        assert(self.name is Some ==> self.form_view(key).contains((member_key(key, "name"@), self.name.unwrap()@))) by {
            if self.name is Some {
                assert(parts[3][0] == (member_key(key, "name"@), self.name.unwrap()@));
                lemma_part_in_concat(parts, 7, 3, (member_key(key, "name"@), self.name.unwrap()@));
            }
        }
        assert(self.start_at is Some ==> self.form_view(key).contains((member_key(key, "start_at"@), self.start_at.unwrap()@))) by {
            if self.start_at is Some {
                assert(parts[4][0] == (member_key(key, "start_at"@), self.start_at.unwrap()@));
                lemma_part_in_concat(parts, 7, 4, (member_key(key, "start_at"@), self.start_at.unwrap()@));
            }
        }
        assert(self.syllabus_body is Some ==> self.form_view(key).contains((member_key(key, "syllabus_body"@), self.syllabus_body.unwrap()@))) by {
            if self.syllabus_body is Some {
                assert(parts[5][0] == (member_key(key, "syllabus_body"@), self.syllabus_body.unwrap()@));
                lemma_part_in_concat(parts, 7, 5, (member_key(key, "syllabus_body"@), self.syllabus_body.unwrap()@));
            }
        }
        assert(self.time_zone is Some ==> self.form_view(key).contains((member_key(key, "time_zone"@), self.time_zone.unwrap()@))) by {
            if self.time_zone is Some {
                assert(parts[6][0] == (member_key(key, "time_zone"@), self.time_zone.unwrap()@));
                lemma_part_in_concat(parts, 7, 6, (member_key(key, "time_zone"@), self.time_zone.unwrap()@));
            }
        }
    }
}

} // verus!
