use vstd::prelude::*;
use std::sync::Arc;
use crate::error::Result;
use crate::http::{scoped, share, Method, PayloadView, Request, Requester, Scope};
use crate::json::{first_of, first_of_spec, get, JsonValue};
use crate::pagination::{lists, PageStream};
use crate::params::{
    add_bool, add_required_text, add_text, add_u64, bool_of, concat_upto, field,
    lemma_part_in_concat, member_key, pairs_view, text_of, u64_of,
};
use crate::text::{bool_text, dec, id_or, id_or_spec, push_u64};

verus! {

#[derive(Debug, Default)]
pub struct CreatePollParams {
    pub question: String,
    pub description: Option<String>,
}

impl CreatePollParams {
    /// The parameters these settings give under `key`: `key[member]` for each
    /// member that is set, in the order of the member names.
    pub open spec fn form_view(self, key: Seq<char>) -> Seq<(Seq<char>, Seq<char>)> {
        field(key, "description"@, text_of(self.description))
        + field(key, "question"@, Some(self.question@))
    }

    /// The parameters these settings give under `key` (what flattening
    /// `{key: settings}` gives).
    pub fn to_form(&self, key: &str) -> (r: Vec<(String, String)>)
        ensures
            pairs_view(r@) == self.form_view(key@),
    {
        let mut out: Vec<(String, String)> = Vec::new();
        add_text(&mut out, key, "description", &self.description);
        add_required_text(&mut out, key, "question", &self.question);
        assert(pairs_view(out@) =~= self.form_view(key@));
        out
    }

    /// Every member of these settings that is set is sent under `key[member]`,
    /// with its text (a boolean as `true`/`false`, a number in decimal).
    pub proof fn lemma_form_sends_members(self, key: Seq<char>)
        ensures
            self.description is Some ==> self.form_view(key).contains((member_key(key, "description"@), self.description.unwrap()@)),
            self.form_view(key).contains((member_key(key, "question"@), self.question@)),
    {
        let parts = seq![
            field(key, "description"@, text_of(self.description)),
            field(key, "question"@, Some(self.question@)),
        ];
        assert(self.form_view(key) == concat_upto(parts, 2)) by {
            assert(concat_upto(parts, 0) == Seq::<(Seq<char>, Seq<char>)>::empty());
            assert(concat_upto(parts, 1) =~= parts[0]);
            assert(concat_upto(parts, 2) == concat_upto(parts, 1) + parts[1]);
        }
        assert(self.description is Some ==> self.form_view(key).contains((member_key(key, "description"@), self.description.unwrap()@))) by {
            if self.description is Some {
                assert(parts[0][0] == (member_key(key, "description"@), self.description.unwrap()@));
                lemma_part_in_concat(parts, 2, 0, (member_key(key, "description"@), self.description.unwrap()@));
            }
        }
        assert(self.form_view(key).contains((member_key(key, "question"@), self.question@))) by {
            assert(parts[1][0] == (member_key(key, "question"@), self.question@));
            lemma_part_in_concat(parts, 2, 1, (member_key(key, "question"@), self.question@));
        }
    }
}

#[derive(Debug, Default)]
pub struct PollChoiceParams {
    pub text: String,
    pub is_correct: Option<bool>,
    pub position: Option<u32>,
}

impl PollChoiceParams {
    /// The parameters these settings give under `key`: `key[member]` for each
    /// member that is set, in the order of the member names.
    pub open spec fn form_view(self, key: Seq<char>) -> Seq<(Seq<char>, Seq<char>)> {
        field(key, "is_correct"@, bool_of(self.is_correct))
        + field(key, "position"@, u64_of(match self.position {
            Some(p) => Some(p as u64),
            None => None,
        }))
        + field(key, "text"@, Some(self.text@))
    }

    /// The parameters these settings give under `key` (what flattening
    /// `{key: settings}` gives).
    pub fn to_form(&self, key: &str) -> (r: Vec<(String, String)>)
        ensures
            pairs_view(r@) == self.form_view(key@),
    {
        let mut out: Vec<(String, String)> = Vec::new();
        add_bool(&mut out, key, "is_correct", self.is_correct);
        add_u64(&mut out, key, "position", match self.position {
            Some(p) => Some(p as u64),
            None => None,
        });
        add_required_text(&mut out, key, "text", &self.text);
        assert(pairs_view(out@) =~= self.form_view(key@));
        out
    }

    /// Every member of these settings that is set is sent under `key[member]`,
    /// with its text (a boolean as `true`/`false`, a number in decimal).
    pub proof fn lemma_form_sends_members(self, key: Seq<char>)
        ensures
            self.is_correct is Some ==> self.form_view(key).contains((member_key(key, "is_correct"@), bool_text(self.is_correct.unwrap()))),
            self.position is Some ==> self.form_view(key).contains((member_key(key, "position"@), dec(self.position.unwrap() as nat))),
            self.form_view(key).contains((member_key(key, "text"@), self.text@)),
    {
        let parts = seq![
            field(key, "is_correct"@, bool_of(self.is_correct)),
            field(key, "position"@, u64_of(match self.position {
                Some(p) => Some(p as u64),
                None => None,
            })),
            field(key, "text"@, Some(self.text@)),
        ];
        assert(self.form_view(key) == concat_upto(parts, 3)) by {
            assert(concat_upto(parts, 0) == Seq::<(Seq<char>, Seq<char>)>::empty());
            assert(concat_upto(parts, 1) =~= parts[0]);
            assert(concat_upto(parts, 2) == concat_upto(parts, 1) + parts[1]);
            assert(concat_upto(parts, 3) == concat_upto(parts, 2) + parts[2]);
        }
        assert(self.is_correct is Some ==> self.form_view(key).contains((member_key(key, "is_correct"@), bool_text(self.is_correct.unwrap())))) by {
            if self.is_correct is Some {
                assert(parts[0][0] == (member_key(key, "is_correct"@), bool_text(self.is_correct.unwrap())));
                lemma_part_in_concat(parts, 3, 0, (member_key(key, "is_correct"@), bool_text(self.is_correct.unwrap())));
            }
        }
        assert(self.position is Some ==> self.form_view(key).contains((member_key(key, "position"@), dec(self.position.unwrap() as nat)))) by {
            if self.position is Some {
                assert(parts[1][0] == (member_key(key, "position"@), dec(self.position.unwrap() as nat)));
                lemma_part_in_concat(parts, 3, 1, (member_key(key, "position"@), dec(self.position.unwrap() as nat)));
            }
        }
        assert(self.form_view(key).contains((member_key(key, "text"@), self.text@))) by {
            assert(parts[2][0] == (member_key(key, "text"@), self.text@));
            lemma_part_in_concat(parts, 3, 2, (member_key(key, "text"@), self.text@));
        }
    }
}

#[derive(Debug, Default)]
pub struct PollSessionParams {
    pub course_id: u64,
    pub course_section_id: Option<u64>,
    pub has_public_results: Option<bool>,
}

impl PollSessionParams {
    /// The parameters these settings give under `key`: `key[member]` for each
    /// member that is set, in the order of the member names.
    pub open spec fn form_view(self, key: Seq<char>) -> Seq<(Seq<char>, Seq<char>)> {
        field(key, "course_id"@, u64_of(Some(self.course_id)))
        + field(key, "course_section_id"@, u64_of(self.course_section_id))
        + field(key, "has_public_results"@, bool_of(self.has_public_results))
    }

    /// The parameters these settings give under `key` (what flattening
    /// `{key: settings}` gives).
    pub fn to_form(&self, key: &str) -> (r: Vec<(String, String)>)
        ensures
            pairs_view(r@) == self.form_view(key@),
    {
        let mut out: Vec<(String, String)> = Vec::new();
        add_u64(&mut out, key, "course_id", Some(self.course_id));
        add_u64(&mut out, key, "course_section_id", self.course_section_id);
        add_bool(&mut out, key, "has_public_results", self.has_public_results);
        assert(pairs_view(out@) =~= self.form_view(key@));
        out
    }

    /// Every member of these settings that is set is sent under `key[member]`,
    /// with its text (a boolean as `true`/`false`, a number in decimal).
    pub proof fn lemma_form_sends_members(self, key: Seq<char>)
        ensures
            self.form_view(key).contains((member_key(key, "course_id"@), dec(self.course_id as nat))),
            self.course_section_id is Some ==> self.form_view(key).contains((member_key(key, "course_section_id"@), dec(self.course_section_id.unwrap() as nat))),
            self.has_public_results is Some ==> self.form_view(key).contains((member_key(key, "has_public_results"@), bool_text(self.has_public_results.unwrap()))),
    {
        let parts = seq![
            field(key, "course_id"@, u64_of(Some(self.course_id))),
            field(key, "course_section_id"@, u64_of(self.course_section_id)),
            field(key, "has_public_results"@, bool_of(self.has_public_results)),
        ];
        assert(self.form_view(key) == concat_upto(parts, 3)) by {
            assert(concat_upto(parts, 0) == Seq::<(Seq<char>, Seq<char>)>::empty());
            assert(concat_upto(parts, 1) =~= parts[0]);
            assert(concat_upto(parts, 2) == concat_upto(parts, 1) + parts[1]);
            assert(concat_upto(parts, 3) == concat_upto(parts, 2) + parts[2]);
        }
        assert(self.form_view(key).contains((member_key(key, "course_id"@), dec(self.course_id as nat)))) by {
            assert(parts[0][0] == (member_key(key, "course_id"@), dec(self.course_id as nat)));
            lemma_part_in_concat(parts, 3, 0, (member_key(key, "course_id"@), dec(self.course_id as nat)));
        }
        assert(self.course_section_id is Some ==> self.form_view(key).contains((member_key(key, "course_section_id"@), dec(self.course_section_id.unwrap() as nat)))) by {
            if self.course_section_id is Some {
                assert(parts[1][0] == (member_key(key, "course_section_id"@), dec(self.course_section_id.unwrap() as nat)));
                lemma_part_in_concat(parts, 3, 1, (member_key(key, "course_section_id"@), dec(self.course_section_id.unwrap() as nat)));
            }
        }
        assert(self.has_public_results is Some ==> self.form_view(key).contains((member_key(key, "has_public_results"@), bool_text(self.has_public_results.unwrap())))) by {
            if self.has_public_results is Some {
                assert(parts[2][0] == (member_key(key, "has_public_results"@), bool_text(self.has_public_results.unwrap())));
                lemma_part_in_concat(parts, 3, 2, (member_key(key, "has_public_results"@), bool_text(self.has_public_results.unwrap())));
            }
        }
    }
}

#[derive(Debug, Default)]
pub struct PollSubmissionParams {
    pub poll_choice_id: u64,
}

impl PollSubmissionParams {
    /// The parameters these settings give under `key`: `key[member]` for each
    /// member that is set, in the order of the member names.
    pub open spec fn form_view(self, key: Seq<char>) -> Seq<(Seq<char>, Seq<char>)> {
        seq![] + field(key, "poll_choice_id"@, u64_of(Some(self.poll_choice_id)))
    }

    /// The parameters these settings give under `key` (what flattening
    /// `{key: settings}` gives).
    pub fn to_form(&self, key: &str) -> (r: Vec<(String, String)>)
        ensures
            pairs_view(r@) == self.form_view(key@),
    {
        let mut out: Vec<(String, String)> = Vec::new();
        add_u64(&mut out, key, "poll_choice_id", Some(self.poll_choice_id));
        assert(pairs_view(out@) =~= self.form_view(key@));
        out
    }

    /// Every member of these settings that is set is sent under `key[member]`,
    /// with its text (a boolean as `true`/`false`, a number in decimal).
    pub proof fn lemma_form_sends_members(self, key: Seq<char>)
        ensures
            self.form_view(key).contains((member_key(key, "poll_choice_id"@), dec(self.poll_choice_id as nat))),
    {
        let parts = seq![
            field(key, "poll_choice_id"@, u64_of(Some(self.poll_choice_id))),
        ];
        assert(self.form_view(key) == concat_upto(parts, 1)) by {
            assert(concat_upto(parts, 0) == Seq::<(Seq<char>, Seq<char>)>::empty());
            assert(concat_upto(parts, 1) =~= parts[0]);
        }
        assert(self.form_view(key).contains((member_key(key, "poll_choice_id"@), dec(self.poll_choice_id as nat)))) by {
            assert(parts[0][0] == (member_key(key, "poll_choice_id"@), dec(self.poll_choice_id as nat)));
            lemma_part_in_concat(parts, 1, 0, (member_key(key, "poll_choice_id"@), dec(self.poll_choice_id as nat)));
        }
    }
}

/// A Canvas poll created by the current user.
#[derive(Debug)]
pub struct Poll {
    pub id: u64,
    pub question: Option<String>,
    pub description: Option<String>,
    pub total_results: Option<JsonValue>,
    pub requester: Option<Arc<Requester>>,
}

impl Poll {
    /// Takes in this Poll as fetched: it keeps `requester` for its own calls.
    pub fn adopt(&mut self, requester: Arc<Requester>, scope: &Scope)
        ensures
            final(self).requester == Some(requester),
            final(self).id == old(self).id,
            final(self).question == old(self).question,
            final(self).description == old(self).description,
            final(self).total_results == old(self).total_results,
    {
        self.requester = Some(requester);
    }

    fn req(&self) -> (r: &Arc<Requester>)
        requires
            self.requester is Some,
        ensures
            *r == self.requester.unwrap(),
    {
        self.requester.as_ref().unwrap()
    }

    /// Delete this poll.
    ///
    /// # Canvas API
    /// `DELETE /api/v1/polls/:id`
    pub fn delete(&self) -> (r: Result<Request>)
        requires
            self.requester is Some,
        ensures
            self.requester.unwrap().sends_scoped(
                r,
                Method::Delete,
                "polls/"@ + dec(self.id as nat),
                PayloadView::Query(seq![]),
                Scope::none(),
            ),
    {
        let mut endpoint = String::new();
        endpoint.append("polls/");
        push_u64(&mut endpoint, self.id);
        assert(endpoint@ =~= "polls/"@ + dec(self.id as nat));
        let form: Vec<(String, String)> = Vec::new();
        assert(pairs_view(form@) =~= seq![]);
        scoped(self.req().delete(endpoint.as_str(), form), Scope::empty())
    }

    /// Fetch a single poll choice.
    ///
    /// What Canvas answers is read with [`PollChoice::choice_of`].
    ///
    /// # Canvas API
    /// `GET /api/v1/polls/:poll_id/poll_choices/:id`
    pub fn get_choice(&self, choice_id: u64) -> (r: Result<Request>)
        requires
            self.requester is Some,
        ensures
            self.requester.unwrap().sends_scoped(
                r,
                Method::Get,
                "polls/"@ + dec(self.id as nat) + "/poll_choices/"@ + dec(choice_id as nat),
                PayloadView::Query(seq![]),
                Scope::none(),
            ),
    {
        let mut endpoint = String::new();
        endpoint.append("polls/");
        push_u64(&mut endpoint, self.id);
        endpoint.append("/poll_choices/");
        push_u64(&mut endpoint, choice_id);
        assert(endpoint@ =~= "polls/"@ + dec(self.id as nat) + "/poll_choices/"@ + dec(choice_id as nat));
        let form: Vec<(String, String)> = Vec::new();
        assert(pairs_view(form@) =~= seq![]);
        scoped(self.req().get(endpoint.as_str(), form), Scope::empty())
    }

    /// Stream all choices for this poll.
    ///
    /// # Canvas API
    /// `GET /api/v1/polls/:poll_id/poll_choices`
    pub fn get_choices(&self) -> (s: PageStream<PollChoice>)
        requires
            self.requester is Some,
        ensures
            lists(s, *self.requester.unwrap(), self.requester.unwrap().base(), "polls/"@ + dec(self.id as nat) + "/poll_choices"@, seq![], Scope::none()),
    {
        let mut endpoint = String::new();
        endpoint.append("polls/");
        push_u64(&mut endpoint, self.id);
        endpoint.append("/poll_choices");
        assert(endpoint@ =~= "polls/"@ + dec(self.id as nat) + "/poll_choices"@);
        let form: Vec<(String, String)> = Vec::new();
        assert(pairs_view(form@) =~= seq![]);
        PageStream::new(share(self.req()), endpoint.as_str(), form).with_scope(Scope::empty())
    }

    /// Create a new choice for this poll.
    ///
    /// What Canvas answers is read with [`PollChoice::choice_of`].
    ///
    /// # Canvas API
    /// `POST /api/v1/polls/:poll_id/poll_choices`
    pub fn create_choice(&self, params: PollChoiceParams) -> (r: Result<Request>)
        requires
            self.requester is Some,
        ensures
            self.requester.unwrap().sends_scoped(
                r,
                Method::Post,
                "polls/"@ + dec(self.id as nat) + "/poll_choices"@,
                PayloadView::Form(params.form_view("poll_choice[]"@)),
                Scope::none(),
            ),
    {
        let mut endpoint = String::new();
        endpoint.append("polls/");
        push_u64(&mut endpoint, self.id);
        endpoint.append("/poll_choices");
        assert(endpoint@ =~= "polls/"@ + dec(self.id as nat) + "/poll_choices"@);
        let form: Vec<(String, String)> = params.to_form("poll_choice[]");
        assert(pairs_view(form@) =~= params.form_view("poll_choice[]"@));
        scoped(self.req().post(endpoint.as_str(), form), Scope::empty())
    }

    /// Fetch a single poll session.
    ///
    /// What Canvas answers is read with [`PollSession::session_of`].
    ///
    /// # Canvas API
    /// `GET /api/v1/polls/:poll_id/poll_sessions/:id`
    pub fn get_session(&self, session_id: u64) -> (r: Result<Request>)
        requires
            self.requester is Some,
        ensures
            self.requester.unwrap().sends_scoped(
                r,
                Method::Get,
                "polls/"@ + dec(self.id as nat) + "/poll_sessions/"@ + dec(session_id as nat),
                PayloadView::Query(seq![]),
                Scope::none(),
            ),
    {
        let mut endpoint = String::new();
        endpoint.append("polls/");
        push_u64(&mut endpoint, self.id);
        endpoint.append("/poll_sessions/");
        push_u64(&mut endpoint, session_id);
        assert(endpoint@ =~= "polls/"@ + dec(self.id as nat) + "/poll_sessions/"@ + dec(session_id as nat));
        let form: Vec<(String, String)> = Vec::new();
        assert(pairs_view(form@) =~= seq![]);
        scoped(self.req().get(endpoint.as_str(), form), Scope::empty())
    }

    /// Stream all sessions for this poll.
    ///
    /// # Canvas API
    /// `GET /api/v1/polls/:poll_id/poll_sessions`
    pub fn get_sessions(&self) -> (s: PageStream<PollSession>)
        requires
            self.requester is Some,
        ensures
            lists(s, *self.requester.unwrap(), self.requester.unwrap().base(), "polls/"@ + dec(self.id as nat) + "/poll_sessions"@, seq![], Scope::none()),
    {
        let mut endpoint = String::new();
        endpoint.append("polls/");
        push_u64(&mut endpoint, self.id);
        endpoint.append("/poll_sessions");
        assert(endpoint@ =~= "polls/"@ + dec(self.id as nat) + "/poll_sessions"@);
        let form: Vec<(String, String)> = Vec::new();
        assert(pairs_view(form@) =~= seq![]);
        PageStream::new(share(self.req()), endpoint.as_str(), form).with_scope(Scope::empty())
    }

    /// Create a new session for this poll.
    ///
    /// What Canvas answers is read with [`PollSession::session_of`].
    ///
    /// # Canvas API
    /// `POST /api/v1/polls/:poll_id/poll_sessions`
    pub fn create_session(&self, params: PollSessionParams) -> (r: Result<Request>)
        requires
            self.requester is Some,
        ensures
            self.requester.unwrap().sends_scoped(
                r,
                Method::Post,
                "polls/"@ + dec(self.id as nat) + "/poll_sessions"@,
                PayloadView::Form(params.form_view("poll_session[]"@)),
                Scope::none(),
            ),
    {
        let mut endpoint = String::new();
        endpoint.append("polls/");
        push_u64(&mut endpoint, self.id);
        endpoint.append("/poll_sessions");
        assert(endpoint@ =~= "polls/"@ + dec(self.id as nat) + "/poll_sessions"@);
        let form: Vec<(String, String)> = params.to_form("poll_session[]");
        assert(pairs_view(form@) =~= params.form_view("poll_session[]"@));
        scoped(self.req().post(endpoint.as_str(), form), Scope::empty())
    }
}

/// A choice within a Canvas poll.
#[derive(Debug)]
pub struct PollChoice {
    pub id: u64,
    pub poll_id: Option<u64>,
    pub text: Option<String>,
    pub is_correct: Option<bool>,
    pub position: Option<u32>,
    pub requester: Option<Arc<Requester>>,
}

impl PollChoice {
    /// Takes in this PollChoice as fetched: it keeps `requester` for its own calls.
    pub fn adopt(&mut self, requester: Arc<Requester>, scope: &Scope)
        ensures
            final(self).requester == Some(requester),
            final(self).id == old(self).id,
            final(self).poll_id == old(self).poll_id,
            final(self).text == old(self).text,
            final(self).is_correct == old(self).is_correct,
            final(self).position == old(self).position,
    {
        self.requester = Some(requester);
    }

    fn req(&self) -> (r: &Arc<Requester>)
        requires
            self.requester is Some,
        ensures
            *r == self.requester.unwrap(),
    {
        self.requester.as_ref().unwrap()
    }

    /// Update this poll choice.
    ///
    /// What Canvas answers is read with [`PollChoice::choice_of`].
    ///
    /// # Canvas API
    /// `PUT /api/v1/polls/:poll_id/poll_choices/:id`
    pub fn update(&self, params: PollChoiceParams) -> (r: Result<Request>)
        requires
            self.requester is Some,
        ensures
            self.requester.unwrap().sends_scoped(
                r,
                Method::Put,
                "polls/"@ + dec(id_or_spec(self.poll_id, 0) as nat) + "/poll_choices/"@ + dec(self.id as nat),
                PayloadView::Form(params.form_view("poll_choice[]"@)),
                Scope::none(),
            ),
    {
        let mut endpoint = String::new();
        endpoint.append("polls/");
        push_u64(&mut endpoint, id_or(self.poll_id, 0));
        endpoint.append("/poll_choices/");
        push_u64(&mut endpoint, self.id);
        assert(endpoint@ =~= "polls/"@ + dec(id_or_spec(self.poll_id, 0) as nat) + "/poll_choices/"@ + dec(self.id as nat));
        let form: Vec<(String, String)> = params.to_form("poll_choice[]");
        assert(pairs_view(form@) =~= params.form_view("poll_choice[]"@));
        scoped(self.req().put(endpoint.as_str(), form), Scope::empty())
    }

    /// Delete this poll choice.
    ///
    /// # Canvas API
    /// `DELETE /api/v1/polls/:poll_id/poll_choices/:id`
    pub fn delete(&self) -> (r: Result<Request>)
        requires
            self.requester is Some,
        ensures
            self.requester.unwrap().sends_scoped(
                r,
                Method::Delete,
                "polls/"@ + dec(id_or_spec(self.poll_id, 0) as nat) + "/poll_choices/"@ + dec(self.id as nat),
                PayloadView::Query(seq![]),
                Scope::none(),
            ),
    {
        let mut endpoint = String::new();
        endpoint.append("polls/");
        push_u64(&mut endpoint, id_or(self.poll_id, 0));
        endpoint.append("/poll_choices/");
        push_u64(&mut endpoint, self.id);
        assert(endpoint@ =~= "polls/"@ + dec(id_or_spec(self.poll_id, 0) as nat) + "/poll_choices/"@ + dec(self.id as nat));
        let form: Vec<(String, String)> = Vec::new();
        assert(pairs_view(form@) =~= seq![]);
        scoped(self.req().delete(endpoint.as_str(), form), Scope::empty())
    }
}

/// A session of a Canvas poll (tied to a specific course/section).
#[derive(Debug)]
pub struct PollSession {
    pub id: u64,
    pub poll_id: Option<u64>,
    pub course_id: Option<u64>,
    pub course_section_id: Option<u64>,
    pub is_published: Option<bool>,
    pub has_public_results: Option<bool>,
    pub results: Option<JsonValue>,
    pub requester: Option<Arc<Requester>>,
}

impl PollSession {
    /// Takes in this PollSession as fetched: it keeps `requester` for its own calls.
    pub fn adopt(&mut self, requester: Arc<Requester>, scope: &Scope)
        ensures
            final(self).requester == Some(requester),
            final(self).id == old(self).id,
            final(self).poll_id == old(self).poll_id,
            final(self).course_id == old(self).course_id,
            final(self).course_section_id == old(self).course_section_id,
            final(self).is_published == old(self).is_published,
            final(self).has_public_results == old(self).has_public_results,
            final(self).results == old(self).results,
    {
        self.requester = Some(requester);
    }

    fn req(&self) -> (r: &Arc<Requester>)
        requires
            self.requester is Some,
        ensures
            *r == self.requester.unwrap(),
    {
        self.requester.as_ref().unwrap()
    }

    /// Update this poll session.
    ///
    /// What Canvas answers is read with [`PollSession::session_of`].
    ///
    /// # Canvas API
    /// `PUT /api/v1/polls/:poll_id/poll_sessions/:id`
    pub fn update(&self, params: PollSessionParams) -> (r: Result<Request>)
        requires
            self.requester is Some,
        ensures
            self.requester.unwrap().sends_scoped(
                r,
                Method::Put,
                "polls/"@ + dec(id_or_spec(self.poll_id, 0) as nat) + "/poll_sessions/"@ + dec(self.id as nat),
                PayloadView::Form(params.form_view("poll_session[]"@)),
                Scope::none(),
            ),
    {
        let mut endpoint = String::new();
        endpoint.append("polls/");
        push_u64(&mut endpoint, id_or(self.poll_id, 0));
        endpoint.append("/poll_sessions/");
        push_u64(&mut endpoint, self.id);
        assert(endpoint@ =~= "polls/"@ + dec(id_or_spec(self.poll_id, 0) as nat) + "/poll_sessions/"@ + dec(self.id as nat));
        let form: Vec<(String, String)> = params.to_form("poll_session[]");
        assert(pairs_view(form@) =~= params.form_view("poll_session[]"@));
        scoped(self.req().put(endpoint.as_str(), form), Scope::empty())
    }

    /// Delete this poll session.
    ///
    /// # Canvas API
    /// `DELETE /api/v1/polls/:poll_id/poll_sessions/:id`
    pub fn delete(&self) -> (r: Result<Request>)
        requires
            self.requester is Some,
        ensures
            self.requester.unwrap().sends_scoped(
                r,
                Method::Delete,
                "polls/"@ + dec(id_or_spec(self.poll_id, 0) as nat) + "/poll_sessions/"@ + dec(self.id as nat),
                PayloadView::Query(seq![]),
                Scope::none(),
            ),
    {
        let mut endpoint = String::new();
        endpoint.append("polls/");
        push_u64(&mut endpoint, id_or(self.poll_id, 0));
        endpoint.append("/poll_sessions/");
        push_u64(&mut endpoint, self.id);
        assert(endpoint@ =~= "polls/"@ + dec(id_or_spec(self.poll_id, 0) as nat) + "/poll_sessions/"@ + dec(self.id as nat));
        let form: Vec<(String, String)> = Vec::new();
        assert(pairs_view(form@) =~= seq![]);
        scoped(self.req().delete(endpoint.as_str(), form), Scope::empty())
    }

    /// Open this poll session for responses.
    ///
    /// What Canvas answers is read with [`PollSession::session_of`].
    ///
    /// # Canvas API
    /// `GET /api/v1/polls/:poll_id/poll_sessions/:id/open`
    pub fn open(&self) -> (r: Result<Request>)
        requires
            self.requester is Some,
        ensures
            self.requester.unwrap().sends_scoped(
                r,
                Method::Get,
                "polls/"@ + dec(id_or_spec(self.poll_id, 0) as nat) + "/poll_sessions/"@ + dec(self.id as nat) + "/open"@,
                PayloadView::Query(seq![]),
                Scope::none(),
            ),
    {
        let mut endpoint = String::new();
        endpoint.append("polls/");
        push_u64(&mut endpoint, id_or(self.poll_id, 0));
        endpoint.append("/poll_sessions/");
        push_u64(&mut endpoint, self.id);
        endpoint.append("/open");
        assert(endpoint@ =~= "polls/"@ + dec(id_or_spec(self.poll_id, 0) as nat) + "/poll_sessions/"@ + dec(self.id as nat) + "/open"@);
        let form: Vec<(String, String)> = Vec::new();
        assert(pairs_view(form@) =~= seq![]);
        scoped(self.req().get(endpoint.as_str(), form), Scope::empty())
    }

    /// Close this poll session to responses.
    ///
    /// What Canvas answers is read with [`PollSession::session_of`].
    ///
    /// # Canvas API
    /// `GET /api/v1/polls/:poll_id/poll_sessions/:id/close`
    pub fn close(&self) -> (r: Result<Request>)
        requires
            self.requester is Some,
        ensures
            self.requester.unwrap().sends_scoped(
                r,
                Method::Get,
                "polls/"@ + dec(id_or_spec(self.poll_id, 0) as nat) + "/poll_sessions/"@ + dec(self.id as nat) + "/close"@,
                PayloadView::Query(seq![]),
                Scope::none(),
            ),
    {
        let mut endpoint = String::new();
        endpoint.append("polls/");
        push_u64(&mut endpoint, id_or(self.poll_id, 0));
        endpoint.append("/poll_sessions/");
        push_u64(&mut endpoint, self.id);
        endpoint.append("/close");
        assert(endpoint@ =~= "polls/"@ + dec(id_or_spec(self.poll_id, 0) as nat) + "/poll_sessions/"@ + dec(self.id as nat) + "/close"@);
        let form: Vec<(String, String)> = Vec::new();
        assert(pairs_view(form@) =~= seq![]);
        scoped(self.req().get(endpoint.as_str(), form), Scope::empty())
    }

    /// Fetch a single poll submission.
    ///
    /// What Canvas answers is read with [`PollSubmission::submission_of`].
    ///
    /// # Canvas API
    /// `GET /api/v1/polls/:poll_id/poll_sessions/:poll_session_id/poll_submissions/:id`
    pub fn get_submission(&self, submission_id: u64) -> (r: Result<Request>)
        requires
            self.requester is Some,
        ensures
            self.requester.unwrap().sends_scoped(
                r,
                Method::Get,
                "polls/"@ + dec(id_or_spec(self.poll_id, 0) as nat) + "/poll_sessions/"@ + dec(self.id as nat) + "/poll_submissions/"@ + dec(submission_id as nat),
                PayloadView::Query(seq![]),
                Scope::none(),
            ),
    {
        let mut endpoint = String::new();
        endpoint.append("polls/");
        push_u64(&mut endpoint, id_or(self.poll_id, 0));
        endpoint.append("/poll_sessions/");
        push_u64(&mut endpoint, self.id);
        endpoint.append("/poll_submissions/");
        push_u64(&mut endpoint, submission_id);
        assert(endpoint@ =~= "polls/"@ + dec(id_or_spec(self.poll_id, 0) as nat) + "/poll_sessions/"@ + dec(self.id as nat) + "/poll_submissions/"@ + dec(submission_id as nat));
        let form: Vec<(String, String)> = Vec::new();
        assert(pairs_view(form@) =~= seq![]);
        scoped(self.req().get(endpoint.as_str(), form), Scope::empty())
    }

    /// Create a poll submission for this session.
    ///
    /// What Canvas answers is read with [`PollSubmission::submission_of`].
    ///
    /// # Canvas API
    /// `POST /api/v1/polls/:poll_id/poll_sessions/:poll_session_id/poll_submissions`
    pub fn create_submission(&self, params: PollSubmissionParams) -> (r: Result<Request>)
        requires
            self.requester is Some,
        ensures
            self.requester.unwrap().sends_scoped(
                r,
                Method::Post,
                "polls/"@ + dec(id_or_spec(self.poll_id, 0) as nat) + "/poll_sessions/"@ + dec(self.id as nat) + "/poll_submissions"@,
                PayloadView::Form(params.form_view("poll_submissions[]"@)),
                Scope::none(),
            ),
    {
        let mut endpoint = String::new();
        endpoint.append("polls/");
        push_u64(&mut endpoint, id_or(self.poll_id, 0));
        endpoint.append("/poll_sessions/");
        push_u64(&mut endpoint, self.id);
        endpoint.append("/poll_submissions");
        assert(endpoint@ =~= "polls/"@ + dec(id_or_spec(self.poll_id, 0) as nat) + "/poll_sessions/"@ + dec(self.id as nat) + "/poll_submissions"@);
        let form: Vec<(String, String)> = params.to_form("poll_submissions[]");
        assert(pairs_view(form@) =~= params.form_view("poll_submissions[]"@));
        scoped(self.req().post(endpoint.as_str(), form), Scope::empty())
    }
}

/// A student's response to a poll session.
#[derive(Debug)]
pub struct PollSubmission {
    pub id: u64,
    pub poll_session_id: Option<u64>,
    pub poll_choice_id: Option<u64>,
    pub user_id: Option<u64>,
    /// A time, as RFC 3339 text.
    pub created_at: Option<String>,
}

impl Poll {
    /// Update this poll.
    ///
    /// What Canvas answers is read with [`Self::poll_of`].
    ///
    /// # Canvas API
    /// `PUT /api/v1/polls/:id`
    pub fn update(&self, params: CreatePollParams) -> (r: Result<Request>)
        requires
            self.requester is Some,
        ensures
            self.requester.unwrap().sends_scoped(
                r,
                Method::Put,
                "polls/"@ + dec(self.id as nat),
                PayloadView::Form(params.form_view("polls[]"@)),
                Scope::none(),
            ),
    {
        let mut endpoint = String::new();
        endpoint.append("polls/");
        push_u64(&mut endpoint, self.id);
        let form = params.to_form("polls[]");
        scoped(self.req().put(endpoint.as_str(), form), Scope::empty())
    }

    /// The poll in Canvas's answer to a call that returns one poll: the first
    /// element of its `polls` array; `None` stands for `null`.
    pub fn poll_of(response: &JsonValue) -> (p: Option<&JsonValue>)
        ensures
            match p {
                Some(x) => first_of_spec(*response, "polls"@) == Some(*x),
                None => first_of_spec(*response, "polls"@) is None,
            },
    {
        first_of(response, "polls")
    }
}

impl PollChoice {
    /// The choice in Canvas's answer to a call that returns one poll choice:
    /// the first element of its `poll_choices` array; `None` stands for `null`.
    pub fn choice_of(response: &JsonValue) -> (p: Option<&JsonValue>)
        ensures
            match p {
                Some(x) => first_of_spec(*response, "poll_choices"@) == Some(*x),
                None => first_of_spec(*response, "poll_choices"@) is None,
            },
    {
        first_of(response, "poll_choices")
    }
}

impl PollSession {
    /// The session in Canvas's answer to a call that returns one poll session:
    /// the first element of its `poll_sessions` array; `None` stands for `null`.
    pub fn session_of(response: &JsonValue) -> (p: Option<&JsonValue>)
        ensures
            match p {
                Some(x) => first_of_spec(*response, "poll_sessions"@) == Some(*x),
                None => first_of_spec(*response, "poll_sessions"@) is None,
            },
    {
        first_of(response, "poll_sessions")
    }
}

impl PollSubmission {
    /// The submission in Canvas's answer to a call that returns one poll
    /// submission: the first element of its `poll_submissions` array; `None`
    /// stands for `null`.
    pub fn submission_of(response: &JsonValue) -> (p: Option<&JsonValue>)
        ensures
            match p {
                Some(x) => first_of_spec(*response, "poll_submissions"@) == Some(*x),
                None => first_of_spec(*response, "poll_submissions"@) is None,
            },
    {
        first_of(response, "poll_submissions")
    }
}

} // verus!
