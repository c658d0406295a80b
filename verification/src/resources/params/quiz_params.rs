use vstd::prelude::*;
use crate::params::{
    add_bool, add_i64, add_required_text, add_text, add_u64, bool_of, concat_upto, field, i64_of,
    lemma_part_in_concat, member_key, pairs_view, text_of, u64_of,
};
use crate::text::{bool_text, dec, dec_signed};

verus! {

#[derive(Debug, Default)]
pub struct CreateQuizParams {
    pub title: String,
    pub description: Option<String>,
    pub quiz_type: Option<String>,
    pub time_limit: Option<u64>,
    pub shuffle_answers: Option<bool>,
    pub allowed_attempts: Option<i64>,
    /// A time, as RFC 3339 text.
    pub due_at: Option<String>,
    /// A time, as RFC 3339 text.
    pub lock_at: Option<String>,
    /// A time, as RFC 3339 text.
    pub unlock_at: Option<String>,
    pub published: Option<bool>,
}

impl CreateQuizParams {
    /// The parameters these settings give under `key`: `key[member]` for each
    /// member that is set, in the order of the member names.
    pub open spec fn form_view(self, key: Seq<char>) -> Seq<(Seq<char>, Seq<char>)> {
        field(key, "allowed_attempts"@, i64_of(self.allowed_attempts))
        + field(key, "description"@, text_of(self.description))
        + field(key, "due_at"@, text_of(self.due_at))
        + field(key, "lock_at"@, text_of(self.lock_at))
        + field(key, "published"@, bool_of(self.published))
        + field(key, "quiz_type"@, text_of(self.quiz_type))
        + field(key, "shuffle_answers"@, bool_of(self.shuffle_answers))
        + field(key, "time_limit"@, u64_of(self.time_limit))
        + field(key, "title"@, Some(self.title@))
        + field(key, "unlock_at"@, text_of(self.unlock_at))
    }

    /// The parameters these settings give under `key` (what flattening
    /// `{key: settings}` gives).
    pub fn to_form(&self, key: &str) -> (r: Vec<(String, String)>)
        ensures
            pairs_view(r@) == self.form_view(key@),
    {
        let mut out: Vec<(String, String)> = Vec::new();
        add_i64(&mut out, key, "allowed_attempts", self.allowed_attempts);
        add_text(&mut out, key, "description", &self.description);
        add_text(&mut out, key, "due_at", &self.due_at);
        add_text(&mut out, key, "lock_at", &self.lock_at);
        add_bool(&mut out, key, "published", self.published);
        add_text(&mut out, key, "quiz_type", &self.quiz_type);
        add_bool(&mut out, key, "shuffle_answers", self.shuffle_answers);
        add_u64(&mut out, key, "time_limit", self.time_limit);
        add_required_text(&mut out, key, "title", &self.title);
        add_text(&mut out, key, "unlock_at", &self.unlock_at);
        assert(pairs_view(out@) =~= self.form_view(key@));
        out
    }

    /// Every member of these settings that is set is sent under `key[member]`,
    /// with its text (a boolean as `true`/`false`, a number in decimal).
    #[verifier::rlimit(40)]
    pub proof fn lemma_form_sends_members(self, key: Seq<char>)
        ensures
            self.allowed_attempts is Some ==> self.form_view(key).contains((member_key(key, "allowed_attempts"@), dec_signed(self.allowed_attempts.unwrap() as int))),
            self.description is Some ==> self.form_view(key).contains((member_key(key, "description"@), self.description.unwrap()@)),
            self.due_at is Some ==> self.form_view(key).contains((member_key(key, "due_at"@), self.due_at.unwrap()@)),
            self.lock_at is Some ==> self.form_view(key).contains((member_key(key, "lock_at"@), self.lock_at.unwrap()@)),
            self.published is Some ==> self.form_view(key).contains((member_key(key, "published"@), bool_text(self.published.unwrap()))),
            self.quiz_type is Some ==> self.form_view(key).contains((member_key(key, "quiz_type"@), self.quiz_type.unwrap()@)),
            self.shuffle_answers is Some ==> self.form_view(key).contains((member_key(key, "shuffle_answers"@), bool_text(self.shuffle_answers.unwrap()))),
            self.time_limit is Some ==> self.form_view(key).contains((member_key(key, "time_limit"@), dec(self.time_limit.unwrap() as nat))),
            self.form_view(key).contains((member_key(key, "title"@), self.title@)),
            self.unlock_at is Some ==> self.form_view(key).contains((member_key(key, "unlock_at"@), self.unlock_at.unwrap()@)),
    {
        let parts = seq![
            field(key, "allowed_attempts"@, i64_of(self.allowed_attempts)),
            field(key, "description"@, text_of(self.description)),
            field(key, "due_at"@, text_of(self.due_at)),
            field(key, "lock_at"@, text_of(self.lock_at)),
            field(key, "published"@, bool_of(self.published)),
            field(key, "quiz_type"@, text_of(self.quiz_type)),
            field(key, "shuffle_answers"@, bool_of(self.shuffle_answers)),
            field(key, "time_limit"@, u64_of(self.time_limit)),
            field(key, "title"@, Some(self.title@)),
            field(key, "unlock_at"@, text_of(self.unlock_at)),
        ];
        assert(self.form_view(key) == concat_upto(parts, 10)) by {
            assert(concat_upto(parts, 0) == Seq::<(Seq<char>, Seq<char>)>::empty());
            assert(concat_upto(parts, 1) =~= parts[0]);
            assert(concat_upto(parts, 2) == concat_upto(parts, 1) + parts[1]);
            assert(concat_upto(parts, 3) == concat_upto(parts, 2) + parts[2]);
            assert(concat_upto(parts, 4) == concat_upto(parts, 3) + parts[3]);
            assert(concat_upto(parts, 5) == concat_upto(parts, 4) + parts[4]);
            assert(concat_upto(parts, 6) == concat_upto(parts, 5) + parts[5]);
            assert(concat_upto(parts, 7) == concat_upto(parts, 6) + parts[6]);
            assert(concat_upto(parts, 8) == concat_upto(parts, 7) + parts[7]);
            assert(concat_upto(parts, 9) == concat_upto(parts, 8) + parts[8]);
            assert(concat_upto(parts, 10) == concat_upto(parts, 9) + parts[9]);
        }
        assert(self.allowed_attempts is Some ==> self.form_view(key).contains((member_key(key, "allowed_attempts"@), dec_signed(self.allowed_attempts.unwrap() as int)))) by {
            if self.allowed_attempts is Some {
                assert(parts[0][0] == (member_key(key, "allowed_attempts"@), dec_signed(self.allowed_attempts.unwrap() as int)));
                lemma_part_in_concat(parts, 10, 0, (member_key(key, "allowed_attempts"@), dec_signed(self.allowed_attempts.unwrap() as int)));
            }
        }
        assert(self.description is Some ==> self.form_view(key).contains((member_key(key, "description"@), self.description.unwrap()@))) by {
            if self.description is Some {
                assert(parts[1][0] == (member_key(key, "description"@), self.description.unwrap()@));
                lemma_part_in_concat(parts, 10, 1, (member_key(key, "description"@), self.description.unwrap()@));
            }
        }
        assert(self.due_at is Some ==> self.form_view(key).contains((member_key(key, "due_at"@), self.due_at.unwrap()@))) by {
            if self.due_at is Some {
                assert(parts[2][0] == (member_key(key, "due_at"@), self.due_at.unwrap()@));
                lemma_part_in_concat(parts, 10, 2, (member_key(key, "due_at"@), self.due_at.unwrap()@));
            }
        }
        assert(self.lock_at is Some ==> self.form_view(key).contains((member_key(key, "lock_at"@), self.lock_at.unwrap()@))) by {
            if self.lock_at is Some {
                assert(parts[3][0] == (member_key(key, "lock_at"@), self.lock_at.unwrap()@));
                lemma_part_in_concat(parts, 10, 3, (member_key(key, "lock_at"@), self.lock_at.unwrap()@));
            }
        }
        assert(self.published is Some ==> self.form_view(key).contains((member_key(key, "published"@), bool_text(self.published.unwrap())))) by {
            if self.published is Some {
                assert(parts[4][0] == (member_key(key, "published"@), bool_text(self.published.unwrap())));
                lemma_part_in_concat(parts, 10, 4, (member_key(key, "published"@), bool_text(self.published.unwrap())));
            }
        }
        assert(self.quiz_type is Some ==> self.form_view(key).contains((member_key(key, "quiz_type"@), self.quiz_type.unwrap()@))) by {
            if self.quiz_type is Some {
                assert(parts[5][0] == (member_key(key, "quiz_type"@), self.quiz_type.unwrap()@));
                lemma_part_in_concat(parts, 10, 5, (member_key(key, "quiz_type"@), self.quiz_type.unwrap()@));
            }
        }
        assert(self.shuffle_answers is Some ==> self.form_view(key).contains((member_key(key, "shuffle_answers"@), bool_text(self.shuffle_answers.unwrap())))) by {
            if self.shuffle_answers is Some {
                assert(parts[6][0] == (member_key(key, "shuffle_answers"@), bool_text(self.shuffle_answers.unwrap())));
                lemma_part_in_concat(parts, 10, 6, (member_key(key, "shuffle_answers"@), bool_text(self.shuffle_answers.unwrap())));
            }
        }
        assert(self.time_limit is Some ==> self.form_view(key).contains((member_key(key, "time_limit"@), dec(self.time_limit.unwrap() as nat)))) by {
            if self.time_limit is Some {
                assert(parts[7][0] == (member_key(key, "time_limit"@), dec(self.time_limit.unwrap() as nat)));
                lemma_part_in_concat(parts, 10, 7, (member_key(key, "time_limit"@), dec(self.time_limit.unwrap() as nat)));
            }
        }
        assert(self.form_view(key).contains((member_key(key, "title"@), self.title@))) by {
            assert(parts[8][0] == (member_key(key, "title"@), self.title@));
            lemma_part_in_concat(parts, 10, 8, (member_key(key, "title"@), self.title@));
        }
        assert(self.unlock_at is Some ==> self.form_view(key).contains((member_key(key, "unlock_at"@), self.unlock_at.unwrap()@))) by {
            if self.unlock_at is Some {
                assert(parts[9][0] == (member_key(key, "unlock_at"@), self.unlock_at.unwrap()@));
                lemma_part_in_concat(parts, 10, 9, (member_key(key, "unlock_at"@), self.unlock_at.unwrap()@));
            }
        }
    }
}

} // verus!
