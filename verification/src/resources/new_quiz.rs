use vstd::prelude::*;
use std::sync::Arc;
use crate::error::{CanvasError, Result};
use crate::http::{Method, PayloadView, Request, Requester, Scope};
use crate::json::JsonValue;
use crate::params::{
    add_bool, add_text, bool_of, concat_upto, field, lemma_part_in_concat, member_key, pairs_view,
    text_of,
};
use crate::text::{bool_text, dec, push_u64};
use crate::http::{bearer, Payload};
use crate::json::{
    body_entry, decimal_body, flag_body, object_holds, push_decimal_member, push_flag_member,
    push_text_member, text_body, BodyValue,
};
use crate::urls::{url_join, url_join_error};

verus! {

/// A Canvas New Quiz (created via the New Quizzes engine).
///
/// Requires the `new-quizzes` feature. All methods hit `/api/quiz/v1/`
/// rather than the standard `/api/v1/` base.
#[derive(Debug)]
pub struct NewQuiz {
    pub id: Option<String>,
    pub course_id: Option<u64>,
    pub title: Option<String>,
    pub assignment_id: Option<String>,
    /// A decimal, as the text `serde_json` prints for it (`10.0`, `2.5`).
    pub points_possible: Option<String>,
    pub due_at: Option<String>,
    pub lock_at: Option<String>,
    pub unlock_at: Option<String>,
    pub shuffle_answers: Option<bool>,
    pub shuffle_questions: Option<bool>,
    pub require_lockdown_browser: Option<bool>,
    pub show_correct_answers: Option<bool>,
    pub instructions: Option<String>,
    pub workflow_state: Option<String>,
    pub requester: Option<Arc<Requester>>,
}

impl NewQuiz {
    /// Takes in this NewQuiz as fetched: it keeps `requester` for its own calls.
    pub fn adopt(&mut self, requester: Arc<Requester>, scope: &Scope)
        ensures
            final(self).requester == Some(requester),
            final(self).id == old(self).id,
            final(self).course_id == old(self).course_id,
            final(self).title == old(self).title,
            final(self).assignment_id == old(self).assignment_id,
            final(self).points_possible == old(self).points_possible,
            final(self).due_at == old(self).due_at,
            final(self).lock_at == old(self).lock_at,
            final(self).unlock_at == old(self).unlock_at,
            final(self).shuffle_answers == old(self).shuffle_answers,
            final(self).shuffle_questions == old(self).shuffle_questions,
            final(self).require_lockdown_browser == old(self).require_lockdown_browser,
            final(self).show_correct_answers == old(self).show_correct_answers,
            final(self).instructions == old(self).instructions,
            final(self).workflow_state == old(self).workflow_state,
    {
        self.requester = Some(requester);
    }

    fn req(&self) -> (r: &Arc<Requester>)
        requires
            self.requester is Some,
        ensures
            *r == self.requester.unwrap(),
    {
        self.requester.as_ref().unwrap()
    }
}

/// JSON body for creating or updating a New Quiz.
#[derive(Debug, Default)]
pub struct NewQuizParams {
    pub title: Option<String>,
    /// A decimal, as the text `serde_json` prints for it (`10.0`, `2.5`).
    pub points_possible: Option<String>,
    pub due_at: Option<String>,
    pub lock_at: Option<String>,
    pub unlock_at: Option<String>,
    pub shuffle_answers: Option<bool>,
    pub shuffle_questions: Option<bool>,
    pub instructions: Option<String>,
}

impl NewQuizParams {
    /// The parameters these settings give under `key`: `key[member]` for each
    /// member that is set, in the order of the member names.
    pub open spec fn form_view(self, key: Seq<char>) -> Seq<(Seq<char>, Seq<char>)> {
        field(key, "due_at"@, text_of(self.due_at))
        + field(key, "instructions"@, text_of(self.instructions))
        + field(key, "lock_at"@, text_of(self.lock_at))
        + field(key, "points_possible"@, text_of(self.points_possible))
        + field(key, "shuffle_answers"@, bool_of(self.shuffle_answers))
        + field(key, "shuffle_questions"@, bool_of(self.shuffle_questions))
        + field(key, "title"@, text_of(self.title))
        + field(key, "unlock_at"@, text_of(self.unlock_at))
    }

    /// The parameters these settings give under `key` (what flattening
    /// `{key: settings}` gives).
    pub fn to_form(&self, key: &str) -> (r: Vec<(String, String)>)
        ensures
            pairs_view(r@) == self.form_view(key@),
    {
        let mut out: Vec<(String, String)> = Vec::new();
        add_text(&mut out, key, "due_at", &self.due_at);
        add_text(&mut out, key, "instructions", &self.instructions);
        add_text(&mut out, key, "lock_at", &self.lock_at);
        add_text(&mut out, key, "points_possible", &self.points_possible);
        add_bool(&mut out, key, "shuffle_answers", self.shuffle_answers);
        add_bool(&mut out, key, "shuffle_questions", self.shuffle_questions);
        add_text(&mut out, key, "title", &self.title);
        add_text(&mut out, key, "unlock_at", &self.unlock_at);
        assert(pairs_view(out@) =~= self.form_view(key@));
        out
    }

    /// Every member of these settings that is set is sent under `key[member]`,
    /// with its text (a boolean as `true`/`false`, a number in decimal).
    pub proof fn lemma_form_sends_members(self, key: Seq<char>)
        ensures
            self.due_at is Some ==> self.form_view(key).contains((member_key(key, "due_at"@), self.due_at.unwrap()@)),
            self.instructions is Some ==> self.form_view(key).contains((member_key(key, "instructions"@), self.instructions.unwrap()@)),
            self.lock_at is Some ==> self.form_view(key).contains((member_key(key, "lock_at"@), self.lock_at.unwrap()@)),
            self.points_possible is Some ==> self.form_view(key).contains((member_key(key, "points_possible"@), self.points_possible.unwrap()@)),
            self.shuffle_answers is Some ==> self.form_view(key).contains((member_key(key, "shuffle_answers"@), bool_text(self.shuffle_answers.unwrap()))),
            self.shuffle_questions is Some ==> self.form_view(key).contains((member_key(key, "shuffle_questions"@), bool_text(self.shuffle_questions.unwrap()))),
            self.title is Some ==> self.form_view(key).contains((member_key(key, "title"@), self.title.unwrap()@)),
            self.unlock_at is Some ==> self.form_view(key).contains((member_key(key, "unlock_at"@), self.unlock_at.unwrap()@)),
    {
        let parts = seq![
            field(key, "due_at"@, text_of(self.due_at)),
            field(key, "instructions"@, text_of(self.instructions)),
            field(key, "lock_at"@, text_of(self.lock_at)),
            field(key, "points_possible"@, text_of(self.points_possible)),
            field(key, "shuffle_answers"@, bool_of(self.shuffle_answers)),
            field(key, "shuffle_questions"@, bool_of(self.shuffle_questions)),
            field(key, "title"@, text_of(self.title)),
            field(key, "unlock_at"@, text_of(self.unlock_at)),
        ];
        assert(self.form_view(key) == concat_upto(parts, 8)) by {
            assert(concat_upto(parts, 0) == Seq::<(Seq<char>, Seq<char>)>::empty());
            assert(concat_upto(parts, 1) =~= parts[0]);
            assert(concat_upto(parts, 2) == concat_upto(parts, 1) + parts[1]);
            assert(concat_upto(parts, 3) == concat_upto(parts, 2) + parts[2]);
            assert(concat_upto(parts, 4) == concat_upto(parts, 3) + parts[3]);
            assert(concat_upto(parts, 5) == concat_upto(parts, 4) + parts[4]);
            assert(concat_upto(parts, 6) == concat_upto(parts, 5) + parts[5]);
            assert(concat_upto(parts, 7) == concat_upto(parts, 6) + parts[6]);
            assert(concat_upto(parts, 8) == concat_upto(parts, 7) + parts[7]);
        }
        assert(self.due_at is Some ==> self.form_view(key).contains((member_key(key, "due_at"@), self.due_at.unwrap()@))) by {
            if self.due_at is Some {
                assert(parts[0][0] == (member_key(key, "due_at"@), self.due_at.unwrap()@));
                lemma_part_in_concat(parts, 8, 0, (member_key(key, "due_at"@), self.due_at.unwrap()@));
            }
        }
        assert(self.instructions is Some ==> self.form_view(key).contains((member_key(key, "instructions"@), self.instructions.unwrap()@))) by {
            if self.instructions is Some {
                assert(parts[1][0] == (member_key(key, "instructions"@), self.instructions.unwrap()@));
                lemma_part_in_concat(parts, 8, 1, (member_key(key, "instructions"@), self.instructions.unwrap()@));
            }
        }
        assert(self.lock_at is Some ==> self.form_view(key).contains((member_key(key, "lock_at"@), self.lock_at.unwrap()@))) by {
            if self.lock_at is Some {
                assert(parts[2][0] == (member_key(key, "lock_at"@), self.lock_at.unwrap()@));
                lemma_part_in_concat(parts, 8, 2, (member_key(key, "lock_at"@), self.lock_at.unwrap()@));
            }
        }
        assert(self.points_possible is Some ==> self.form_view(key).contains((member_key(key, "points_possible"@), self.points_possible.unwrap()@))) by {
            if self.points_possible is Some {
                assert(parts[3][0] == (member_key(key, "points_possible"@), self.points_possible.unwrap()@));
                lemma_part_in_concat(parts, 8, 3, (member_key(key, "points_possible"@), self.points_possible.unwrap()@));
            }
        }
        assert(self.shuffle_answers is Some ==> self.form_view(key).contains((member_key(key, "shuffle_answers"@), bool_text(self.shuffle_answers.unwrap())))) by {
            if self.shuffle_answers is Some {
                assert(parts[4][0] == (member_key(key, "shuffle_answers"@), bool_text(self.shuffle_answers.unwrap())));
                lemma_part_in_concat(parts, 8, 4, (member_key(key, "shuffle_answers"@), bool_text(self.shuffle_answers.unwrap())));
            }
        }
        assert(self.shuffle_questions is Some ==> self.form_view(key).contains((member_key(key, "shuffle_questions"@), bool_text(self.shuffle_questions.unwrap())))) by {
            if self.shuffle_questions is Some {
                assert(parts[5][0] == (member_key(key, "shuffle_questions"@), bool_text(self.shuffle_questions.unwrap())));
                lemma_part_in_concat(parts, 8, 5, (member_key(key, "shuffle_questions"@), bool_text(self.shuffle_questions.unwrap())));
            }
        }
        assert(self.title is Some ==> self.form_view(key).contains((member_key(key, "title"@), self.title.unwrap()@))) by {
            if self.title is Some {
                assert(parts[6][0] == (member_key(key, "title"@), self.title.unwrap()@));
                lemma_part_in_concat(parts, 8, 6, (member_key(key, "title"@), self.title.unwrap()@));
            }
        }
        assert(self.unlock_at is Some ==> self.form_view(key).contains((member_key(key, "unlock_at"@), self.unlock_at.unwrap()@))) by {
            if self.unlock_at is Some {
                assert(parts[7][0] == (member_key(key, "unlock_at"@), self.unlock_at.unwrap()@));
                lemma_part_in_concat(parts, 8, 7, (member_key(key, "unlock_at"@), self.unlock_at.unwrap()@));
            }
        }
    }
}

impl NewQuiz {
    fn quiz_id(&self) -> (r: &str)
        requires
            self.id is Some,
        ensures
            r@ == self.id.unwrap()@,
    {
        self.id.as_ref().unwrap().as_str()
    }
}

impl NewQuizParams {
    /// The JSON body of these settings: an object with each member that is set,
    /// in the order of the member names; `points_possible` is a number.
    pub open spec fn body_view(self) -> Seq<(Seq<char>, BodyValue)> {
        body_entry("due_at"@, text_body(self.due_at)) + body_entry("instructions"@, text_body(self.instructions))
            + body_entry("lock_at"@, text_body(self.lock_at)) + body_entry(
            "points_possible"@,
            decimal_body(self.points_possible),
        ) + body_entry("shuffle_answers"@, flag_body(self.shuffle_answers)) + body_entry(
            "shuffle_questions"@,
            flag_body(self.shuffle_questions),
        ) + body_entry("title"@, text_body(self.title)) + body_entry("unlock_at"@, text_body(self.unlock_at))
    }

    /// The JSON body of these settings (see [`Self::body_view`]).
    pub fn to_body(&self) -> (v: JsonValue)
        ensures
            object_holds(v, self.body_view()),
    {
        let mut m: Vec<(String, JsonValue)> = Vec::new();
        let ghost e0: Seq<(Seq<char>, BodyValue)> = seq![];
        push_text_member(&mut m, "due_at", &self.due_at, Ghost(e0));
        let ghost e1 = e0 + body_entry("due_at"@, text_body(self.due_at));
        push_text_member(&mut m, "instructions", &self.instructions, Ghost(e1));
        let ghost e2 = e1 + body_entry("instructions"@, text_body(self.instructions));
        push_text_member(&mut m, "lock_at", &self.lock_at, Ghost(e2));
        let ghost e3 = e2 + body_entry("lock_at"@, text_body(self.lock_at));
        push_decimal_member(&mut m, "points_possible", &self.points_possible, Ghost(e3));
        let ghost e4 = e3 + body_entry("points_possible"@, decimal_body(self.points_possible));
        push_flag_member(&mut m, "shuffle_answers", self.shuffle_answers, Ghost(e4));
        let ghost e5 = e4 + body_entry("shuffle_answers"@, flag_body(self.shuffle_answers));
        push_flag_member(&mut m, "shuffle_questions", self.shuffle_questions, Ghost(e5));
        let ghost e6 = e5 + body_entry("shuffle_questions"@, flag_body(self.shuffle_questions));
        push_text_member(&mut m, "title", &self.title, Ghost(e6));
        let ghost e7 = e6 + body_entry("title"@, text_body(self.title));
        push_text_member(&mut m, "unlock_at", &self.unlock_at, Ghost(e7));
        assert(e7 + body_entry("unlock_at"@, text_body(self.unlock_at)) =~= self.body_view());
        JsonValue::Object(m)
    }
}

impl NewQuiz {
    /// The path of this quiz: `courses/:course_id/quizzes/:id`.
    pub open spec fn path(self) -> Seq<char> {
        "courses/"@ + dec(self.course_id.unwrap() as nat) + "/quizzes/"@ + self.id.unwrap()@
    }

    fn endpoint(&self) -> (s: String)
        requires
            self.course_id is Some,
            self.id is Some,
        ensures
            s@ == self.path(),
    {
        let mut endpoint = String::new();
        endpoint.append("courses/");
        push_u64(&mut endpoint, self.course_id.unwrap());
        endpoint.append("/quizzes/");
        endpoint.append(self.quiz_id());
        endpoint
    }

    /// Update this quiz.
    ///
    /// # Canvas API
    /// `PATCH /api/quiz/v1/courses/:course_id/quizzes/:id`
    pub fn update(&self, params: NewQuizParams) -> (r: Result<Request>)
        requires
            self.requester is Some,
            self.course_id is Some,
            self.id is Some,
        ensures
            match url_join(self.requester.unwrap().nq_root(), self.path()) {
                Some(u) => r matches Ok(q) && q.method == Method::Patch && q.url@ == u && q.authorization@
                    == bearer(self.requester.unwrap().token()) && q.scope == Scope::none() && (q.payload matches Payload::Json(body)
                    && object_holds(body, params.body_view())),
                None => r matches Err(CanvasError::Url(e)) && e == url_join_error(
                    self.requester.unwrap().nq_root(),
                    self.path(),
                ),
            },
    {
        let endpoint = self.endpoint();
        let body = params.to_body();
        self.req().nq_patch(endpoint.as_str(), body)
    }

    /// Delete this quiz.
    ///
    /// # Canvas API
    /// `DELETE /api/quiz/v1/courses/:course_id/quizzes/:id`
    pub fn delete(&self) -> (r: Result<Request>)
        requires
            self.requester is Some,
            self.course_id is Some,
            self.id is Some,
        ensures
            self.requester.unwrap().sends_to(r, self.requester.unwrap().nq_root(), Method::Delete, self.path(), PayloadView::Empty),
    {
        let endpoint = self.endpoint();
        self.req().nq_delete(endpoint.as_str())
    }

    /// Apply quiz-level accommodations for specific students.
    ///
    /// `accommodations` should be a JSON array of objects with `user_id` and
    /// optional `extra_time`, `extra_attempts`, `reduce_choices_enabled` fields.
    ///
    /// # Canvas API
    /// `POST /api/quiz/v1/courses/:course_id/quizzes/:id/accommodations`
    pub fn set_accommodations(&self, accommodations: JsonValue) -> (r: Result<Request>)
        requires
            self.requester is Some,
            self.course_id is Some,
            self.id is Some,
        ensures
            self.requester.unwrap().sends_to(
                r,
                self.requester.unwrap().nq_root(),
                Method::Post,
                self.path() + "/accommodations"@,
                PayloadView::Json(accommodations),
            ),
    {
        let mut endpoint = self.endpoint();
        endpoint.append("/accommodations");
        self.req().nq_post(endpoint.as_str(), accommodations)
    }
}

impl NewQuizParams {
    /// Every setting of a New Quiz that is set is a member of the JSON body
    /// under its own name: texts as strings, flags as booleans, the points as a
    /// number.
    pub proof fn lemma_body_holds_members(self)
        ensures
            self.due_at is Some ==> self.body_view().contains(("due_at"@, BodyValue::Text(self.due_at.unwrap()@))),
            self.instructions is Some ==> self.body_view().contains(("instructions"@, BodyValue::Text(self.instructions.unwrap()@))),
            self.lock_at is Some ==> self.body_view().contains(("lock_at"@, BodyValue::Text(self.lock_at.unwrap()@))),
            self.points_possible is Some ==> self.body_view().contains(("points_possible"@, BodyValue::Decimal(self.points_possible.unwrap()@))),
            self.shuffle_answers is Some ==> self.body_view().contains(("shuffle_answers"@, BodyValue::Flag(self.shuffle_answers.unwrap()))),
            self.shuffle_questions is Some ==> self.body_view().contains(("shuffle_questions"@, BodyValue::Flag(self.shuffle_questions.unwrap()))),
            self.title is Some ==> self.body_view().contains(("title"@, BodyValue::Text(self.title.unwrap()@))),
            self.unlock_at is Some ==> self.body_view().contains(("unlock_at"@, BodyValue::Text(self.unlock_at.unwrap()@))),
    {
        let parts = seq![
            body_entry("due_at"@, text_body(self.due_at)),
            body_entry("instructions"@, text_body(self.instructions)),
            body_entry("lock_at"@, text_body(self.lock_at)),
            body_entry("points_possible"@, decimal_body(self.points_possible)),
            body_entry("shuffle_answers"@, flag_body(self.shuffle_answers)),
            body_entry("shuffle_questions"@, flag_body(self.shuffle_questions)),
            body_entry("title"@, text_body(self.title)),
            body_entry("unlock_at"@, text_body(self.unlock_at)),
        ];
        assert(self.body_view() =~= concat_upto(parts, 8)) by {
            reveal_with_fuel(concat_upto, 9);
        }
        if self.due_at is Some {
            assert(parts[0][0] == ("due_at"@, BodyValue::Text(self.due_at.unwrap()@)));
            lemma_part_in_concat(parts, 8, 0, ("due_at"@, BodyValue::Text(self.due_at.unwrap()@)));
        }
        if self.instructions is Some {
            assert(parts[1][0] == ("instructions"@, BodyValue::Text(self.instructions.unwrap()@)));
            lemma_part_in_concat(parts, 8, 1, ("instructions"@, BodyValue::Text(self.instructions.unwrap()@)));
        }
        if self.lock_at is Some {
            assert(parts[2][0] == ("lock_at"@, BodyValue::Text(self.lock_at.unwrap()@)));
            lemma_part_in_concat(parts, 8, 2, ("lock_at"@, BodyValue::Text(self.lock_at.unwrap()@)));
        }
        if self.points_possible is Some {
            assert(parts[3][0] == ("points_possible"@, BodyValue::Decimal(self.points_possible.unwrap()@)));
            lemma_part_in_concat(parts, 8, 3, ("points_possible"@, BodyValue::Decimal(self.points_possible.unwrap()@)));
        }
        if self.shuffle_answers is Some {
            assert(parts[4][0] == ("shuffle_answers"@, BodyValue::Flag(self.shuffle_answers.unwrap())));
            lemma_part_in_concat(parts, 8, 4, ("shuffle_answers"@, BodyValue::Flag(self.shuffle_answers.unwrap())));
        }
        if self.shuffle_questions is Some {
            assert(parts[5][0] == ("shuffle_questions"@, BodyValue::Flag(self.shuffle_questions.unwrap())));
            lemma_part_in_concat(parts, 8, 5, ("shuffle_questions"@, BodyValue::Flag(self.shuffle_questions.unwrap())));
        }
        if self.title is Some {
            assert(parts[6][0] == ("title"@, BodyValue::Text(self.title.unwrap()@)));
            lemma_part_in_concat(parts, 8, 6, ("title"@, BodyValue::Text(self.title.unwrap()@)));
        }
        if self.unlock_at is Some {
            assert(parts[7][0] == ("unlock_at"@, BodyValue::Text(self.unlock_at.unwrap()@)));
            lemma_part_in_concat(parts, 8, 7, ("unlock_at"@, BodyValue::Text(self.unlock_at.unwrap()@)));
        }
    }
}

} // verus!
