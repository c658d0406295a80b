use vstd::prelude::*;
use std::sync::Arc;
use crate::error::Result;
use crate::http::{scoped, Method, PayloadView, Request, Requester, Scope};
use crate::json::{first_of, first_of_spec, JsonValue};
use crate::params::{
    add_required_text, add_text, concat_upto, field, lemma_part_in_concat, member_key, pairs_view,
    text_of,
};
use crate::text::{dec, id_or, id_or_spec, push_u64};
use crate::resources::course::Course;

verus! {

#[derive(Debug)]
pub struct GradingPeriod {
    pub id: u64,
    pub title: Option<String>,
    pub start_date: Option<String>,
    pub end_date: Option<String>,
    pub close_date: Option<String>,
    /// A decimal, as the text `serde_json` prints for it (`10.0`, `2.5`).
    pub weight: Option<String>,
    pub is_last: Option<bool>,
    /// Injected from the parent Course.
    pub course_id: Option<u64>,
    pub requester: Option<Arc<Requester>>,
}

impl GradingPeriod {
    /// Takes in this GradingPeriod as fetched: it keeps `requester` for its own calls,
    /// and takes `course_id` from the scope where the scope sets it.
    pub fn adopt(&mut self, requester: Arc<Requester>, scope: &Scope)
        ensures
            final(self).requester == Some(requester),
            final(self).course_id == (match scope.course_id {
                Some(v) => v,
                None => old(self).course_id,
            }),
            final(self).id == old(self).id,
            final(self).title == old(self).title,
            final(self).start_date == old(self).start_date,
            final(self).end_date == old(self).end_date,
            final(self).close_date == old(self).close_date,
            final(self).weight == old(self).weight,
            final(self).is_last == old(self).is_last,
    {
        self.requester = Some(requester);
        if let Some(v) = scope.course_id {
            self.course_id = v;
        }
    }

    fn req(&self) -> (r: &Arc<Requester>)
        requires
            self.requester is Some,
        ensures
            *r == self.requester.unwrap(),
    {
        self.requester.as_ref().unwrap()
    }

    /// Delete this grading period.
    ///
    /// `DELETE /api/v1/courses/:course_id/grading_periods/:id`
    pub fn delete(&self) -> (r: Result<Request>)
        requires
            self.requester is Some,
        ensures
            self.requester.unwrap().sends_scoped(
                r,
                Method::Delete,
                "courses/"@ + dec(id_or_spec(self.course_id, 0) as nat) + "/grading_periods/"@ + dec(self.id as nat),
                PayloadView::Query(seq![]),
                Scope::none(),
            ),
    {
        let mut endpoint = String::new();
        endpoint.append("courses/");
        push_u64(&mut endpoint, id_or(self.course_id, 0));
        endpoint.append("/grading_periods/");
        push_u64(&mut endpoint, self.id);
        assert(endpoint@ =~= "courses/"@ + dec(id_or_spec(self.course_id, 0) as nat) + "/grading_periods/"@ + dec(self.id as nat));
        let form: Vec<(String, String)> = Vec::new();
        assert(pairs_view(form@) =~= seq![]);
        scoped(self.req().delete(endpoint.as_str(), form), Scope::empty())
    }
}

#[derive(Debug, Default)]
pub struct GradingPeriodParams {
    pub start_date: String,
    pub end_date: String,
    pub title: Option<String>,
    pub close_date: Option<String>,
    /// A decimal, as the text `serde_json` prints for it (`10.0`, `2.5`).
    pub weight: Option<String>,
}

impl GradingPeriodParams {
    /// The parameters these settings give under `key`: `key[member]` for each
    /// member that is set, in the order of the member names.
    pub open spec fn form_view(self, key: Seq<char>) -> Seq<(Seq<char>, Seq<char>)> {
        field(key, "close_date"@, text_of(self.close_date))
        + field(key, "end_date"@, Some(self.end_date@))
        + field(key, "start_date"@, Some(self.start_date@))
        + field(key, "title"@, text_of(self.title))
        + field(key, "weight"@, text_of(self.weight))
    }

    /// The parameters these settings give under `key` (what flattening
    /// `{key: settings}` gives).
    pub fn to_form(&self, key: &str) -> (r: Vec<(String, String)>)
        ensures
            pairs_view(r@) == self.form_view(key@),
    {
        let mut out: Vec<(String, String)> = Vec::new();
        add_text(&mut out, key, "close_date", &self.close_date);
        add_required_text(&mut out, key, "end_date", &self.end_date);
        add_required_text(&mut out, key, "start_date", &self.start_date);
        add_text(&mut out, key, "title", &self.title);
        add_text(&mut out, key, "weight", &self.weight);
        assert(pairs_view(out@) =~= self.form_view(key@));
        out
    }

    /// Every member of these settings that is set is sent under `key[member]`,
    /// with its text (a boolean as `true`/`false`, a number in decimal).
    pub proof fn lemma_form_sends_members(self, key: Seq<char>)
        ensures
            self.close_date is Some ==> self.form_view(key).contains((member_key(key, "close_date"@), self.close_date.unwrap()@)),
            self.form_view(key).contains((member_key(key, "end_date"@), self.end_date@)),
            self.form_view(key).contains((member_key(key, "start_date"@), self.start_date@)),
            self.title is Some ==> self.form_view(key).contains((member_key(key, "title"@), self.title.unwrap()@)),
            self.weight is Some ==> self.form_view(key).contains((member_key(key, "weight"@), self.weight.unwrap()@)),
    {
        let parts = seq![
            field(key, "close_date"@, text_of(self.close_date)),
            field(key, "end_date"@, Some(self.end_date@)),
            field(key, "start_date"@, Some(self.start_date@)),
            field(key, "title"@, text_of(self.title)),
            field(key, "weight"@, text_of(self.weight)),
        ];
        assert(self.form_view(key) == concat_upto(parts, 5)) by {
            assert(concat_upto(parts, 0) == Seq::<(Seq<char>, Seq<char>)>::empty());
            assert(concat_upto(parts, 1) =~= parts[0]);
            assert(concat_upto(parts, 2) == concat_upto(parts, 1) + parts[1]);
            assert(concat_upto(parts, 3) == concat_upto(parts, 2) + parts[2]);
            assert(concat_upto(parts, 4) == concat_upto(parts, 3) + parts[3]);
            assert(concat_upto(parts, 5) == concat_upto(parts, 4) + parts[4]);
        }
        assert(self.close_date is Some ==> self.form_view(key).contains((member_key(key, "close_date"@), self.close_date.unwrap()@))) by {
            if self.close_date is Some {
                assert(parts[0][0] == (member_key(key, "close_date"@), self.close_date.unwrap()@));
                lemma_part_in_concat(parts, 5, 0, (member_key(key, "close_date"@), self.close_date.unwrap()@));
            }
        }
        assert(self.form_view(key).contains((member_key(key, "end_date"@), self.end_date@))) by {
            assert(parts[1][0] == (member_key(key, "end_date"@), self.end_date@));
            lemma_part_in_concat(parts, 5, 1, (member_key(key, "end_date"@), self.end_date@));
        }
        assert(self.form_view(key).contains((member_key(key, "start_date"@), self.start_date@))) by {
            assert(parts[2][0] == (member_key(key, "start_date"@), self.start_date@));
            lemma_part_in_concat(parts, 5, 2, (member_key(key, "start_date"@), self.start_date@));
        }
        assert(self.title is Some ==> self.form_view(key).contains((member_key(key, "title"@), self.title.unwrap()@))) by {
            if self.title is Some {
                assert(parts[3][0] == (member_key(key, "title"@), self.title.unwrap()@));
                lemma_part_in_concat(parts, 5, 3, (member_key(key, "title"@), self.title.unwrap()@));
            }
        }
        assert(self.weight is Some ==> self.form_view(key).contains((member_key(key, "weight"@), self.weight.unwrap()@))) by {
            if self.weight is Some {
                assert(parts[4][0] == (member_key(key, "weight"@), self.weight.unwrap()@));
                lemma_part_in_concat(parts, 5, 4, (member_key(key, "weight"@), self.weight.unwrap()@));
            }
        }
    }
}

impl GradingPeriod {
    /// Update this grading period. The settings go as the one element of the
    /// list `grading_periods`; the period that Canvas answers with takes this
    /// period's course. What Canvas answers is read with [`Self::period_of`].
    ///
    /// `PUT /api/v1/courses/:course_id/grading_periods/:id`
    pub fn update(&self, params: GradingPeriodParams) -> (r: Result<Request>)
        requires
            self.requester is Some,
        ensures
            self.requester.unwrap().sends_scoped(
                r,
                Method::Put,
                "courses/"@ + dec(id_or_spec(self.course_id, 0) as nat) + "/grading_periods/"@ + dec(self.id as nat),
                PayloadView::Form(params.form_view("grading_periods[]"@)),
                Scope { course_id: Some(self.course_id), ..Scope::none() },
            ),
    {
        let mut endpoint = "courses/".to_owned();
        push_u64(&mut endpoint, id_or(self.course_id, 0));
        endpoint.append("/grading_periods/");
        push_u64(&mut endpoint, self.id);
        let form = params.to_form("grading_periods[]");
        scoped(self.req().put(endpoint.as_str(), form), Scope { course_id: Some(self.course_id), ..Scope::empty() })
    }

    /// The period in Canvas's answer to [`Self::update`]: the first element of
    /// its `grading_periods` array; `None` stands for `null`.
    pub fn period_of(response: &JsonValue) -> (p: Option<&JsonValue>)
        ensures
            match p {
                Some(x) => first_of_spec(*response, "grading_periods"@) == Some(*x),
                None => first_of_spec(*response, "grading_periods"@) is None,
            },
    {
        first_of(response, "grading_periods")
    }
}

} // verus!
