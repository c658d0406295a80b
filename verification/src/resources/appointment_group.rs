use vstd::prelude::*;
use std::sync::Arc;
use crate::error::Result;
use crate::http::{scoped, Method, PayloadView, Request, Requester, Scope};
use crate::json::JsonValue;
use crate::params::{
    add_bool, add_text, add_text_list, add_u64, bool_of, concat_upto, field, lemma_part_in_concat,
    list_field, member_key, pairs_view, text_of, texts_of, u64_of,
};
use crate::text::{bool_text, dec, push_u64};

verus! {

#[derive(Debug)]
pub struct AppointmentGroup {
    pub id: u64,
    pub title: Option<String>,
    pub context_codes: Option<Vec<String>>,
    pub sub_context_codes: Option<Vec<String>>,
    pub workflow_state: Option<String>,
    pub location_name: Option<String>,
    pub location_address: Option<String>,
    pub description: Option<String>,
    pub participant_type: Option<String>,
    pub participant_visibility: Option<String>,
    pub participant_limit: Option<u64>,
    pub appointments_count: Option<u64>,
    pub new_appointments: Option<Vec<JsonValue>>,
    pub max_appointments_per_participant: Option<u64>,
    pub min_appointments_per_participant: Option<u64>,
    pub appointments: Option<Vec<JsonValue>>,
    pub created_at: Option<String>,
    pub updated_at: Option<String>,
    pub requester: Option<Arc<Requester>>,
}

impl AppointmentGroup {
    /// Takes in this AppointmentGroup as fetched: it keeps `requester` for its own calls.
    pub fn adopt(&mut self, requester: Arc<Requester>, scope: &Scope)
        ensures
            final(self).requester == Some(requester),
            final(self).id == old(self).id,
            final(self).title == old(self).title,
            final(self).context_codes == old(self).context_codes,
            final(self).sub_context_codes == old(self).sub_context_codes,
            final(self).workflow_state == old(self).workflow_state,
            final(self).location_name == old(self).location_name,
            final(self).location_address == old(self).location_address,
            final(self).description == old(self).description,
            final(self).participant_type == old(self).participant_type,
            final(self).participant_visibility == old(self).participant_visibility,
            final(self).participant_limit == old(self).participant_limit,
            final(self).appointments_count == old(self).appointments_count,
            final(self).new_appointments == old(self).new_appointments,
            final(self).max_appointments_per_participant == old(self).max_appointments_per_participant,
            final(self).min_appointments_per_participant == old(self).min_appointments_per_participant,
            final(self).appointments == old(self).appointments,
            final(self).created_at == old(self).created_at,
            final(self).updated_at == old(self).updated_at,
    {
        self.requester = Some(requester);
    }

    fn req(&self) -> (r: &Arc<Requester>)
        requires
            self.requester is Some,
        ensures
            *r == self.requester.unwrap(),
    {
        self.requester.as_ref().unwrap()
    }

    /// Delete this appointment group.
    ///
    /// `DELETE /api/v1/appointment_groups/:id`
    pub fn delete(&self) -> (r: Result<Request>)
        requires
            self.requester is Some,
        ensures
            self.requester.unwrap().sends_scoped(
                r,
                Method::Delete,
                "appointment_groups/"@ + dec(self.id as nat),
                PayloadView::Query(seq![]),
                Scope::none(),
            ),
    {
        let mut endpoint = String::new();
        endpoint.append("appointment_groups/");
        push_u64(&mut endpoint, self.id);
        assert(endpoint@ =~= "appointment_groups/"@ + dec(self.id as nat));
        let form: Vec<(String, String)> = Vec::new();
        assert(pairs_view(form@) =~= seq![]);
        scoped(self.req().delete(endpoint.as_str(), form), Scope::empty())
    }

    /// Update this appointment group.
    ///
    /// `PUT /api/v1/appointment_groups/:id`
    pub fn edit(&self, params: AppointmentGroupParams) -> (r: Result<Request>)
        requires
            self.requester is Some,
        ensures
            self.requester.unwrap().sends_scoped(
                r,
                Method::Put,
                "appointment_groups/"@ + dec(self.id as nat),
                PayloadView::Form(params.form_view("appointment_group"@)),
                Scope::none(),
            ),
    {
        let mut endpoint = String::new();
        endpoint.append("appointment_groups/");
        push_u64(&mut endpoint, self.id);
        assert(endpoint@ =~= "appointment_groups/"@ + dec(self.id as nat));
        let form: Vec<(String, String)> = params.to_form("appointment_group");
        assert(pairs_view(form@) =~= params.form_view("appointment_group"@));
        scoped(self.req().put(endpoint.as_str(), form), Scope::empty())
    }
}

#[derive(Debug, Default)]
pub struct AppointmentGroupParams {
    pub context_codes: Vec<String>,
    pub title: Option<String>,
    pub description: Option<String>,
    pub location_name: Option<String>,
    pub location_address: Option<String>,
    pub publish: Option<bool>,
    pub participant_type: Option<String>,
    pub max_appointments_per_participant: Option<u64>,
    pub min_appointments_per_participant: Option<u64>,
    pub participant_visibility: Option<String>,
}

impl AppointmentGroupParams {
    /// The parameters these settings give under `key`: `key[member]` for each
    /// member that is set, in the order of the member names.
    pub open spec fn form_view(self, key: Seq<char>) -> Seq<(Seq<char>, Seq<char>)> {
        list_field(key, "context_codes"@, texts_of(self.context_codes@))
        + field(key, "description"@, text_of(self.description))
        + field(key, "location_address"@, text_of(self.location_address))
        + field(key, "location_name"@, text_of(self.location_name))
        + field(key, "max_appointments_per_participant"@, u64_of(self.max_appointments_per_participant))
        + field(key, "min_appointments_per_participant"@, u64_of(self.min_appointments_per_participant))
        + field(key, "participant_type"@, text_of(self.participant_type))
        + field(key, "participant_visibility"@, text_of(self.participant_visibility))
        + field(key, "publish"@, bool_of(self.publish))
        + field(key, "title"@, text_of(self.title))
    }

    /// The parameters these settings give under `key` (what flattening
    /// `{key: settings}` gives).
    pub fn to_form(&self, key: &str) -> (r: Vec<(String, String)>)
        ensures
            pairs_view(r@) == self.form_view(key@),
    {
        let mut out: Vec<(String, String)> = Vec::new();
        add_text_list(&mut out, key, "context_codes", &self.context_codes);
        add_text(&mut out, key, "description", &self.description);
        add_text(&mut out, key, "location_address", &self.location_address);
        add_text(&mut out, key, "location_name", &self.location_name);
        add_u64(&mut out, key, "max_appointments_per_participant", self.max_appointments_per_participant);
        add_u64(&mut out, key, "min_appointments_per_participant", self.min_appointments_per_participant);
        add_text(&mut out, key, "participant_type", &self.participant_type);
        add_text(&mut out, key, "participant_visibility", &self.participant_visibility);
        add_bool(&mut out, key, "publish", self.publish);
        add_text(&mut out, key, "title", &self.title);
        assert(pairs_view(out@) =~= self.form_view(key@));
        out
    }

    /// Every member of these settings that is set is sent under `key[member]`,
    /// with its text (a boolean as `true`/`false`, a number in decimal).
    #[verifier::rlimit(40)]
    pub proof fn lemma_form_sends_members(self, key: Seq<char>)
        ensures
            self.description is Some ==> self.form_view(key).contains((member_key(key, "description"@), self.description.unwrap()@)),
            self.location_address is Some ==> self.form_view(key).contains((member_key(key, "location_address"@), self.location_address.unwrap()@)),
            self.location_name is Some ==> self.form_view(key).contains((member_key(key, "location_name"@), self.location_name.unwrap()@)),
            self.max_appointments_per_participant is Some ==> self.form_view(key).contains((member_key(key, "max_appointments_per_participant"@), dec(self.max_appointments_per_participant.unwrap() as nat))),
            self.min_appointments_per_participant is Some ==> self.form_view(key).contains((member_key(key, "min_appointments_per_participant"@), dec(self.min_appointments_per_participant.unwrap() as nat))),
            self.participant_type is Some ==> self.form_view(key).contains((member_key(key, "participant_type"@), self.participant_type.unwrap()@)),
            self.participant_visibility is Some ==> self.form_view(key).contains((member_key(key, "participant_visibility"@), self.participant_visibility.unwrap()@)),
            self.publish is Some ==> self.form_view(key).contains((member_key(key, "publish"@), bool_text(self.publish.unwrap()))),
            self.title is Some ==> self.form_view(key).contains((member_key(key, "title"@), self.title.unwrap()@)),
    {
        let parts = seq![
            list_field(key, "context_codes"@, texts_of(self.context_codes@)),
            field(key, "description"@, text_of(self.description)),
            field(key, "location_address"@, text_of(self.location_address)),
            field(key, "location_name"@, text_of(self.location_name)),
            field(key, "max_appointments_per_participant"@, u64_of(self.max_appointments_per_participant)),
            field(key, "min_appointments_per_participant"@, u64_of(self.min_appointments_per_participant)),
            field(key, "participant_type"@, text_of(self.participant_type)),
            field(key, "participant_visibility"@, text_of(self.participant_visibility)),
            field(key, "publish"@, bool_of(self.publish)),
            field(key, "title"@, text_of(self.title)),
        ];
        assert(self.form_view(key) == concat_upto(parts, 10)) by {
            assert(concat_upto(parts, 0) == Seq::<(Seq<char>, Seq<char>)>::empty());
            assert(concat_upto(parts, 1) =~= parts[0]);
            assert(concat_upto(parts, 2) == concat_upto(parts, 1) + parts[1]);
            assert(concat_upto(parts, 3) == concat_upto(parts, 2) + parts[2]);
            assert(concat_upto(parts, 4) == concat_upto(parts, 3) + parts[3]);
            assert(concat_upto(parts, 5) == concat_upto(parts, 4) + parts[4]);
            assert(concat_upto(parts, 6) == concat_upto(parts, 5) + parts[5]);
            assert(concat_upto(parts, 7) == concat_upto(parts, 6) + parts[6]);
            assert(concat_upto(parts, 8) == concat_upto(parts, 7) + parts[7]);
            assert(concat_upto(parts, 9) == concat_upto(parts, 8) + parts[8]);
            assert(concat_upto(parts, 10) == concat_upto(parts, 9) + parts[9]);
        }
        assert(self.description is Some ==> self.form_view(key).contains((member_key(key, "description"@), self.description.unwrap()@))) by {
            if self.description is Some {
                assert(parts[1][0] == (member_key(key, "description"@), self.description.unwrap()@));
                lemma_part_in_concat(parts, 10, 1, (member_key(key, "description"@), self.description.unwrap()@));
            }
        }
        assert(self.location_address is Some ==> self.form_view(key).contains((member_key(key, "location_address"@), self.location_address.unwrap()@))) by {
            if self.location_address is Some {
                assert(parts[2][0] == (member_key(key, "location_address"@), self.location_address.unwrap()@));
                lemma_part_in_concat(parts, 10, 2, (member_key(key, "location_address"@), self.location_address.unwrap()@));
            }
        }
        assert(self.location_name is Some ==> self.form_view(key).contains((member_key(key, "location_name"@), self.location_name.unwrap()@))) by {
            if self.location_name is Some {
                assert(parts[3][0] == (member_key(key, "location_name"@), self.location_name.unwrap()@));
                lemma_part_in_concat(parts, 10, 3, (member_key(key, "location_name"@), self.location_name.unwrap()@));
            }
        }
        assert(self.max_appointments_per_participant is Some ==> self.form_view(key).contains((member_key(key, "max_appointments_per_participant"@), dec(self.max_appointments_per_participant.unwrap() as nat)))) by {
            if self.max_appointments_per_participant is Some {
                assert(parts[4][0] == (member_key(key, "max_appointments_per_participant"@), dec(self.max_appointments_per_participant.unwrap() as nat)));
                lemma_part_in_concat(parts, 10, 4, (member_key(key, "max_appointments_per_participant"@), dec(self.max_appointments_per_participant.unwrap() as nat)));
            }
        }
        assert(self.min_appointments_per_participant is Some ==> self.form_view(key).contains((member_key(key, "min_appointments_per_participant"@), dec(self.min_appointments_per_participant.unwrap() as nat)))) by {
            if self.min_appointments_per_participant is Some {
                assert(parts[5][0] == (member_key(key, "min_appointments_per_participant"@), dec(self.min_appointments_per_participant.unwrap() as nat)));
                lemma_part_in_concat(parts, 10, 5, (member_key(key, "min_appointments_per_participant"@), dec(self.min_appointments_per_participant.unwrap() as nat)));
            }
        }
        assert(self.participant_type is Some ==> self.form_view(key).contains((member_key(key, "participant_type"@), self.participant_type.unwrap()@))) by {
            if self.participant_type is Some {
                assert(parts[6][0] == (member_key(key, "participant_type"@), self.participant_type.unwrap()@));
                lemma_part_in_concat(parts, 10, 6, (member_key(key, "participant_type"@), self.participant_type.unwrap()@));
            }
        }
        assert(self.participant_visibility is Some ==> self.form_view(key).contains((member_key(key, "participant_visibility"@), self.participant_visibility.unwrap()@))) by {
            if self.participant_visibility is Some {
                assert(parts[7][0] == (member_key(key, "participant_visibility"@), self.participant_visibility.unwrap()@));
                lemma_part_in_concat(parts, 10, 7, (member_key(key, "participant_visibility"@), self.participant_visibility.unwrap()@));
            }
        }
        assert(self.publish is Some ==> self.form_view(key).contains((member_key(key, "publish"@), bool_text(self.publish.unwrap())))) by {
            if self.publish is Some {
                assert(parts[8][0] == (member_key(key, "publish"@), bool_text(self.publish.unwrap())));
                lemma_part_in_concat(parts, 10, 8, (member_key(key, "publish"@), bool_text(self.publish.unwrap())));
            }
        }
        assert(self.title is Some ==> self.form_view(key).contains((member_key(key, "title"@), self.title.unwrap()@))) by {
            if self.title is Some {
                assert(parts[9][0] == (member_key(key, "title"@), self.title.unwrap()@));
                lemma_part_in_concat(parts, 10, 9, (member_key(key, "title"@), self.title.unwrap()@));
            }
        }
    }
}

} // verus!
