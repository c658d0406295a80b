use vstd::prelude::*;
use std::sync::Arc;
use crate::error::Result;
use crate::http::{scoped, Method, PayloadView, Request, Requester, Scope};
use crate::params::{
    add_bool_at, add_text_at, add_u64_at, bool_of, concat_upto, entry, lemma_part_in_concat,
    pairs_view, text_of, u64_of,
};
use crate::text::{bool_text, dec, push_u64};

verus! {

#[derive(Debug)]
pub struct PlannerNote {
    pub id: u64,
    pub title: Option<String>,
    pub description: Option<String>,
    pub user_id: Option<u64>,
    pub workflow_state: Option<String>,
    pub course_id: Option<u64>,
    pub todo_date: Option<String>,
    pub created_at: Option<String>,
    pub updated_at: Option<String>,
    pub requester: Option<Arc<Requester>>,
}

impl PlannerNote {
    /// Takes in this PlannerNote as fetched: it keeps `requester` for its own calls.
    pub fn adopt(&mut self, requester: Arc<Requester>, scope: &Scope)
        ensures
            final(self).requester == Some(requester),
            final(self).id == old(self).id,
            final(self).title == old(self).title,
            final(self).description == old(self).description,
            final(self).user_id == old(self).user_id,
            final(self).workflow_state == old(self).workflow_state,
            final(self).course_id == old(self).course_id,
            final(self).todo_date == old(self).todo_date,
            final(self).created_at == old(self).created_at,
            final(self).updated_at == old(self).updated_at,
    {
        self.requester = Some(requester);
    }

    fn req(&self) -> (r: &Arc<Requester>)
        requires
            self.requester is Some,
        ensures
            *r == self.requester.unwrap(),
    {
        self.requester.as_ref().unwrap()
    }

    /// Delete this planner note.
    ///
    /// `DELETE /api/v1/planner_notes/:id`
    pub fn delete(&self) -> (r: Result<Request>)
        requires
            self.requester is Some,
        ensures
            self.requester.unwrap().sends_scoped(
                r,
                Method::Delete,
                "planner_notes/"@ + dec(self.id as nat),
                PayloadView::Query(seq![]),
                Scope::none(),
            ),
    {
        let mut endpoint = String::new();
        endpoint.append("planner_notes/");
        push_u64(&mut endpoint, self.id);
        assert(endpoint@ =~= "planner_notes/"@ + dec(self.id as nat));
        let form: Vec<(String, String)> = Vec::new();
        assert(pairs_view(form@) =~= seq![]);
        scoped(self.req().delete(endpoint.as_str(), form), Scope::empty())
    }
}

#[derive(Debug, Default)]
pub struct PlannerNoteParams {
    pub title: Option<String>,
    pub details: Option<String>,
    pub todo_date: Option<String>,
    pub course_id: Option<u64>,
}

#[derive(Debug)]
pub struct PlannerOverride {
    pub id: u64,
    pub plannable_type: Option<String>,
    pub plannable_id: Option<u64>,
    pub user_id: Option<u64>,
    pub assignment_id: Option<u64>,
    pub workflow_state: Option<String>,
    pub marked_complete: Option<bool>,
    pub dismissed: Option<bool>,
    pub created_at: Option<String>,
    pub updated_at: Option<String>,
    pub deleted_at: Option<String>,
    pub requester: Option<Arc<Requester>>,
}

impl PlannerOverride {
    /// Takes in this PlannerOverride as fetched: it keeps `requester` for its own calls.
    pub fn adopt(&mut self, requester: Arc<Requester>, scope: &Scope)
        ensures
            final(self).requester == Some(requester),
            final(self).id == old(self).id,
            final(self).plannable_type == old(self).plannable_type,
            final(self).plannable_id == old(self).plannable_id,
            final(self).user_id == old(self).user_id,
            final(self).assignment_id == old(self).assignment_id,
            final(self).workflow_state == old(self).workflow_state,
            final(self).marked_complete == old(self).marked_complete,
            final(self).dismissed == old(self).dismissed,
            final(self).created_at == old(self).created_at,
            final(self).updated_at == old(self).updated_at,
            final(self).deleted_at == old(self).deleted_at,
    {
        self.requester = Some(requester);
    }

    fn req(&self) -> (r: &Arc<Requester>)
        requires
            self.requester is Some,
        ensures
            *r == self.requester.unwrap(),
    {
        self.requester.as_ref().unwrap()
    }

    /// Delete this planner override.
    ///
    /// `DELETE /api/v1/planner/overrides/:id`
    pub fn delete(&self) -> (r: Result<Request>)
        requires
            self.requester is Some,
        ensures
            self.requester.unwrap().sends_scoped(
                r,
                Method::Delete,
                "planner/overrides/"@ + dec(self.id as nat),
                PayloadView::Query(seq![]),
                Scope::none(),
            ),
    {
        let mut endpoint = String::new();
        endpoint.append("planner/overrides/");
        push_u64(&mut endpoint, self.id);
        assert(endpoint@ =~= "planner/overrides/"@ + dec(self.id as nat));
        let form: Vec<(String, String)> = Vec::new();
        assert(pairs_view(form@) =~= seq![]);
        scoped(self.req().delete(endpoint.as_str(), form), Scope::empty())
    }
}

#[derive(Debug, Default)]
pub struct PlannerOverrideParams {
    pub marked_complete: Option<bool>,
    pub dismissed: Option<bool>,
}

impl PlannerNoteParams {
    /// The form of a planner note: the members that are set, in the order of
    /// their names (`course_id`, `details`, `title`, `todo_date`), each under
    /// its own name.
    pub open spec fn note_form_view(self) -> Seq<(Seq<char>, Seq<char>)> {
        entry("course_id"@, u64_of(self.course_id)) + entry("details"@, text_of(self.details))
            + entry("title"@, text_of(self.title)) + entry("todo_date"@, text_of(self.todo_date))
    }

    /// The form of a planner note (see [`Self::note_form_view`]).
    pub fn to_note_form(&self) -> (r: Vec<(String, String)>)
        ensures
            pairs_view(r@) == self.note_form_view(),
    {
        let mut out: Vec<(String, String)> = Vec::new();
        assert(pairs_view(out@) =~= seq![]);
        add_u64_at(&mut out, "course_id", self.course_id);
        add_text_at(&mut out, "details", &self.details);
        add_text_at(&mut out, "title", &self.title);
        add_text_at(&mut out, "todo_date", &self.todo_date);
        out
    }
}

impl PlannerOverrideParams {
    /// The form of a planner override: `marked_complete`, then `dismissed`,
    /// each when set.
    pub open spec fn override_form_view(self) -> Seq<(Seq<char>, Seq<char>)> {
        entry("marked_complete"@, bool_of(self.marked_complete)) + entry("dismissed"@, bool_of(self.dismissed))
    }

    /// The form of a planner override (see [`Self::override_form_view`]).
    pub fn to_override_form(&self) -> (r: Vec<(String, String)>)
        ensures
            pairs_view(r@) == self.override_form_view(),
    {
        let mut out: Vec<(String, String)> = Vec::new();
        assert(pairs_view(out@) =~= seq![]);
        add_bool_at(&mut out, "marked_complete", self.marked_complete);
        add_bool_at(&mut out, "dismissed", self.dismissed);
        out
    }
}

impl PlannerNote {
    /// Update this planner note.
    ///
    /// `PUT /api/v1/planner_notes/:id`
    pub fn update(&self, params: PlannerNoteParams) -> (r: Result<Request>)
        requires
            self.requester is Some,
        ensures
            self.requester.unwrap().sends_scoped(
                r,
                Method::Put,
                "planner_notes/"@ + dec(self.id as nat),
                PayloadView::Form(params.note_form_view()),
                Scope::none(),
            ),
    {
        let mut endpoint = String::new();
        endpoint.append("planner_notes/");
        push_u64(&mut endpoint, self.id);
        assert(endpoint@ =~= "planner_notes/"@ + dec(self.id as nat));
        let form = params.to_note_form();
        scoped(self.req().put(endpoint.as_str(), form), Scope::empty())
    }
}

impl PlannerOverride {
    /// Update this planner override.
    ///
    /// `PUT /api/v1/planner/overrides/:id`
    pub fn update(&self, params: PlannerOverrideParams) -> (r: Result<Request>)
        requires
            self.requester is Some,
        ensures
            self.requester.unwrap().sends_scoped(
                r,
                Method::Put,
                "planner/overrides/"@ + dec(self.id as nat),
                PayloadView::Form(params.override_form_view()),
                Scope::none(),
            ),
    {
        let mut endpoint = String::new();
        endpoint.append("planner/overrides/");
        push_u64(&mut endpoint, self.id);
        assert(endpoint@ =~= "planner/overrides/"@ + dec(self.id as nat));
        let form = params.to_override_form();
        scoped(self.req().put(endpoint.as_str(), form), Scope::empty())
    }
}

impl PlannerNoteParams {
    /// Every member of a planner note that is set is sent under its own name
    /// with its text (the course id in decimal).
    pub proof fn lemma_note_form_sends_members(self)
        ensures
            self.course_id is Some ==> self.note_form_view().contains(("course_id"@, dec(self.course_id.unwrap() as nat))),
            self.details is Some ==> self.note_form_view().contains(("details"@, self.details.unwrap()@)),
            self.title is Some ==> self.note_form_view().contains(("title"@, self.title.unwrap()@)),
            self.todo_date is Some ==> self.note_form_view().contains(("todo_date"@, self.todo_date.unwrap()@)),
            self.note_form_view().len() == (if self.course_id is Some { 1int } else { 0 }) + (if self.details is Some { 1int } else { 0 })
                + (if self.title is Some { 1int } else { 0 }) + (if self.todo_date is Some { 1int } else { 0 }),
    {
        let parts = seq![
            entry("course_id"@, u64_of(self.course_id)),
            entry("details"@, text_of(self.details)),
            entry("title"@, text_of(self.title)),
            entry("todo_date"@, text_of(self.todo_date)),
        ];
        assert(self.note_form_view() =~= concat_upto(parts, 4)) by {
            reveal_with_fuel(concat_upto, 5);
        }
        if self.course_id is Some {
            assert(parts[0][0] == ("course_id"@, dec(self.course_id.unwrap() as nat)));
            lemma_part_in_concat(parts, 4, 0, ("course_id"@, dec(self.course_id.unwrap() as nat)));
        }
        if self.details is Some {
            assert(parts[1][0] == ("details"@, self.details.unwrap()@));
            lemma_part_in_concat(parts, 4, 1, ("details"@, self.details.unwrap()@));
        }
        if self.title is Some {
            assert(parts[2][0] == ("title"@, self.title.unwrap()@));
            lemma_part_in_concat(parts, 4, 2, ("title"@, self.title.unwrap()@));
        }
        if self.todo_date is Some {
            assert(parts[3][0] == ("todo_date"@, self.todo_date.unwrap()@));
            lemma_part_in_concat(parts, 4, 3, ("todo_date"@, self.todo_date.unwrap()@));
        }
    }
}

impl PlannerOverrideParams {
    /// A planner override sends `marked_complete` and `dismissed` when they are
    /// set, as `true` or `false`, and nothing else.
    pub proof fn lemma_override_form_sends_members(self)
        ensures
            self.marked_complete is Some ==> self.override_form_view().contains(("marked_complete"@, bool_text(self.marked_complete.unwrap()))),
            self.dismissed is Some ==> self.override_form_view().contains(("dismissed"@, bool_text(self.dismissed.unwrap()))),
            self.override_form_view().len() == (if self.marked_complete is Some { 1int } else { 0 })
                + (if self.dismissed is Some { 1int } else { 0 }),
    {
        let parts = seq![
            entry("marked_complete"@, bool_of(self.marked_complete)),
            entry("dismissed"@, bool_of(self.dismissed)),
        ];
        assert(self.override_form_view() =~= concat_upto(parts, 2)) by {
            reveal_with_fuel(concat_upto, 3);
        }
        if self.marked_complete is Some {
            assert(parts[0][0] == ("marked_complete"@, bool_text(self.marked_complete.unwrap())));
            lemma_part_in_concat(parts, 2, 0, ("marked_complete"@, bool_text(self.marked_complete.unwrap())));
        }
        if self.dismissed is Some {
            assert(parts[1][0] == ("dismissed"@, bool_text(self.dismissed.unwrap())));
            lemma_part_in_concat(parts, 2, 1, ("dismissed"@, bool_text(self.dismissed.unwrap())));
        }
    }
}

} // verus!
