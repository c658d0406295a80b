use vstd::prelude::*;
use std::sync::Arc;
use crate::error::Result;
use crate::http::{scoped, Method, PayloadView, Request, Requester, Scope};
use crate::params::{
    add_text, concat_upto, field, lemma_part_in_concat, member_key, pairs_view, text_of,
};
use crate::text::{dec, push_u64};

verus! {

#[derive(Debug)]
pub struct CalendarEvent {
    pub id: u64,
    pub title: Option<String>,
    pub start_at: Option<String>,
    pub end_at: Option<String>,
    pub description: Option<String>,
    pub location_name: Option<String>,
    pub location_address: Option<String>,
    pub context_code: Option<String>,
    pub effective_context_code: Option<String>,
    pub workflow_state: Option<String>,
    pub hidden: Option<bool>,
    pub child_events_count: Option<u64>,
    pub all_day: Option<bool>,
    pub all_day_date: Option<String>,
    pub created_at: Option<String>,
    pub updated_at: Option<String>,
    pub requester: Option<Arc<Requester>>,
}

impl CalendarEvent {
    /// Takes in this CalendarEvent as fetched: it keeps `requester` for its own calls.
    pub fn adopt(&mut self, requester: Arc<Requester>, scope: &Scope)
        ensures
            final(self).requester == Some(requester),
            final(self).id == old(self).id,
            final(self).title == old(self).title,
            final(self).start_at == old(self).start_at,
            final(self).end_at == old(self).end_at,
            final(self).description == old(self).description,
            final(self).location_name == old(self).location_name,
            final(self).location_address == old(self).location_address,
            final(self).context_code == old(self).context_code,
            final(self).effective_context_code == old(self).effective_context_code,
            final(self).workflow_state == old(self).workflow_state,
            final(self).hidden == old(self).hidden,
            final(self).child_events_count == old(self).child_events_count,
            final(self).all_day == old(self).all_day,
            final(self).all_day_date == old(self).all_day_date,
            final(self).created_at == old(self).created_at,
            final(self).updated_at == old(self).updated_at,
    {
        self.requester = Some(requester);
    }

    fn req(&self) -> (r: &Arc<Requester>)
        requires
            self.requester is Some,
        ensures
            *r == self.requester.unwrap(),
    {
        self.requester.as_ref().unwrap()
    }

    /// Delete this calendar event.
    ///
    /// `DELETE /api/v1/calendar_events/:id`
    pub fn delete(&self) -> (r: Result<Request>)
        requires
            self.requester is Some,
        ensures
            self.requester.unwrap().sends_scoped(
                r,
                Method::Delete,
                "calendar_events/"@ + dec(self.id as nat),
                PayloadView::Query(seq![]),
                Scope::none(),
            ),
    {
        let mut endpoint = String::new();
        endpoint.append("calendar_events/");
        push_u64(&mut endpoint, self.id);
        assert(endpoint@ =~= "calendar_events/"@ + dec(self.id as nat));
        let form: Vec<(String, String)> = Vec::new();
        assert(pairs_view(form@) =~= seq![]);
        scoped(self.req().delete(endpoint.as_str(), form), Scope::empty())
    }

    /// Update this calendar event.
    ///
    /// `PUT /api/v1/calendar_events/:id`
    pub fn edit(&self, params: CalendarEventParams) -> (r: Result<Request>)
        requires
            self.requester is Some,
        ensures
            self.requester.unwrap().sends_scoped(
                r,
                Method::Put,
                "calendar_events/"@ + dec(self.id as nat),
                PayloadView::Form(params.form_view("calendar_event"@)),
                Scope::none(),
            ),
    {
        let mut endpoint = String::new();
        endpoint.append("calendar_events/");
        push_u64(&mut endpoint, self.id);
        assert(endpoint@ =~= "calendar_events/"@ + dec(self.id as nat));
        let form: Vec<(String, String)> = params.to_form("calendar_event");
        assert(pairs_view(form@) =~= params.form_view("calendar_event"@));
        scoped(self.req().put(endpoint.as_str(), form), Scope::empty())
    }
}

#[derive(Debug, Default)]
pub struct CalendarEventParams {
    pub title: Option<String>,
    pub start_at: Option<String>,
    pub end_at: Option<String>,
    pub description: Option<String>,
    pub location_name: Option<String>,
    pub location_address: Option<String>,
}

impl CalendarEventParams {
    /// The parameters these settings give under `key`: `key[member]` for each
    /// member that is set, in the order of the member names.
    pub open spec fn form_view(self, key: Seq<char>) -> Seq<(Seq<char>, Seq<char>)> {
        field(key, "description"@, text_of(self.description))
        + field(key, "end_at"@, text_of(self.end_at))
        + field(key, "location_address"@, text_of(self.location_address))
        + field(key, "location_name"@, text_of(self.location_name))
        + field(key, "start_at"@, text_of(self.start_at))
        + field(key, "title"@, text_of(self.title))
    }

    /// The parameters these settings give under `key` (what flattening
    /// `{key: settings}` gives).
    pub fn to_form(&self, key: &str) -> (r: Vec<(String, String)>)
        ensures
            pairs_view(r@) == self.form_view(key@),
    {
        let mut out: Vec<(String, String)> = Vec::new();
        add_text(&mut out, key, "description", &self.description);
        add_text(&mut out, key, "end_at", &self.end_at);
        add_text(&mut out, key, "location_address", &self.location_address);
        add_text(&mut out, key, "location_name", &self.location_name);
        add_text(&mut out, key, "start_at", &self.start_at);
        add_text(&mut out, key, "title", &self.title);
        assert(pairs_view(out@) =~= self.form_view(key@));
        out
    }

    /// Every member of these settings that is set is sent under `key[member]`,
    /// with its text (a boolean as `true`/`false`, a number in decimal).
    pub proof fn lemma_form_sends_members(self, key: Seq<char>)
        ensures
            self.description is Some ==> self.form_view(key).contains((member_key(key, "description"@), self.description.unwrap()@)),
            self.end_at is Some ==> self.form_view(key).contains((member_key(key, "end_at"@), self.end_at.unwrap()@)),
            self.location_address is Some ==> self.form_view(key).contains((member_key(key, "location_address"@), self.location_address.unwrap()@)),
            self.location_name is Some ==> self.form_view(key).contains((member_key(key, "location_name"@), self.location_name.unwrap()@)),
            self.start_at is Some ==> self.form_view(key).contains((member_key(key, "start_at"@), self.start_at.unwrap()@)),
            self.title is Some ==> self.form_view(key).contains((member_key(key, "title"@), self.title.unwrap()@)),
    {
        let parts = seq![
            field(key, "description"@, text_of(self.description)),
            field(key, "end_at"@, text_of(self.end_at)),
            field(key, "location_address"@, text_of(self.location_address)),
            field(key, "location_name"@, text_of(self.location_name)),
            field(key, "start_at"@, text_of(self.start_at)),
            field(key, "title"@, text_of(self.title)),
        ];
        assert(self.form_view(key) == concat_upto(parts, 6)) by {
            assert(concat_upto(parts, 0) == Seq::<(Seq<char>, Seq<char>)>::empty());
            assert(concat_upto(parts, 1) =~= parts[0]);
            assert(concat_upto(parts, 2) == concat_upto(parts, 1) + parts[1]);
            assert(concat_upto(parts, 3) == concat_upto(parts, 2) + parts[2]);
            assert(concat_upto(parts, 4) == concat_upto(parts, 3) + parts[3]);
            assert(concat_upto(parts, 5) == concat_upto(parts, 4) + parts[4]);
            assert(concat_upto(parts, 6) == concat_upto(parts, 5) + parts[5]);
        }
        assert(self.description is Some ==> self.form_view(key).contains((member_key(key, "description"@), self.description.unwrap()@))) by {
            if self.description is Some {
                assert(parts[0][0] == (member_key(key, "description"@), self.description.unwrap()@));
                lemma_part_in_concat(parts, 6, 0, (member_key(key, "description"@), self.description.unwrap()@));
            }
        }
        assert(self.end_at is Some ==> self.form_view(key).contains((member_key(key, "end_at"@), self.end_at.unwrap()@))) by {
            if self.end_at is Some {
                assert(parts[1][0] == (member_key(key, "end_at"@), self.end_at.unwrap()@));
                lemma_part_in_concat(parts, 6, 1, (member_key(key, "end_at"@), self.end_at.unwrap()@));
            }
        }
        assert(self.location_address is Some ==> self.form_view(key).contains((member_key(key, "location_address"@), self.location_address.unwrap()@))) by {
            if self.location_address is Some {
                assert(parts[2][0] == (member_key(key, "location_address"@), self.location_address.unwrap()@));
                lemma_part_in_concat(parts, 6, 2, (member_key(key, "location_address"@), self.location_address.unwrap()@));
            }
        }
        assert(self.location_name is Some ==> self.form_view(key).contains((member_key(key, "location_name"@), self.location_name.unwrap()@))) by {
            if self.location_name is Some {
                assert(parts[3][0] == (member_key(key, "location_name"@), self.location_name.unwrap()@));
                lemma_part_in_concat(parts, 6, 3, (member_key(key, "location_name"@), self.location_name.unwrap()@));
            }
        }
        assert(self.start_at is Some ==> self.form_view(key).contains((member_key(key, "start_at"@), self.start_at.unwrap()@))) by {
            if self.start_at is Some {
                assert(parts[4][0] == (member_key(key, "start_at"@), self.start_at.unwrap()@));
                lemma_part_in_concat(parts, 6, 4, (member_key(key, "start_at"@), self.start_at.unwrap()@));
            }
        }
        assert(self.title is Some ==> self.form_view(key).contains((member_key(key, "title"@), self.title.unwrap()@))) by {
            if self.title is Some {
                assert(parts[5][0] == (member_key(key, "title"@), self.title.unwrap()@));
                lemma_part_in_concat(parts, 6, 5, (member_key(key, "title"@), self.title.unwrap()@));
            }
        }
    }
}

} // verus!
