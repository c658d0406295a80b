use vstd::prelude::*;
use crate::params::{
    add_bool, add_required_text, add_text, bool_of, concat_upto, field, lemma_part_in_concat,
    member_key, pairs_view, text_of,
};
use crate::text::bool_text;

verus! {

#[derive(Debug, Default)]
pub struct CreateUserParams {
    pub name: String,
    pub short_name: Option<String>,
    pub sortable_name: Option<String>,
    pub time_zone: Option<String>,
    pub locale: Option<String>,
    pub birthdate: Option<String>,
    pub terms_of_use: Option<bool>,
    pub skip_registration: Option<bool>,
}

impl CreateUserParams {
    /// The parameters these settings give under `key`: `key[member]` for each
    /// member that is set, in the order of the member names.
    pub open spec fn form_view(self, key: Seq<char>) -> Seq<(Seq<char>, Seq<char>)> {
        field(key, "birthdate"@, text_of(self.birthdate))
        + field(key, "locale"@, text_of(self.locale))
        + field(key, "name"@, Some(self.name@))
        + field(key, "short_name"@, text_of(self.short_name))
        + field(key, "skip_registration"@, bool_of(self.skip_registration))
        + field(key, "sortable_name"@, text_of(self.sortable_name))
        + field(key, "terms_of_use"@, bool_of(self.terms_of_use))
        + field(key, "time_zone"@, text_of(self.time_zone))
    }

    /// The parameters these settings give under `key` (what flattening
    /// `{key: settings}` gives).
    pub fn to_form(&self, key: &str) -> (r: Vec<(String, String)>)
        ensures
            pairs_view(r@) == self.form_view(key@),
    {
        let mut out: Vec<(String, String)> = Vec::new();
        add_text(&mut out, key, "birthdate", &self.birthdate);
        add_text(&mut out, key, "locale", &self.locale);
        add_required_text(&mut out, key, "name", &self.name);
        add_text(&mut out, key, "short_name", &self.short_name);
        add_bool(&mut out, key, "skip_registration", self.skip_registration);
        add_text(&mut out, key, "sortable_name", &self.sortable_name);
        add_bool(&mut out, key, "terms_of_use", self.terms_of_use);
        add_text(&mut out, key, "time_zone", &self.time_zone);
        assert(pairs_view(out@) =~= self.form_view(key@));
        out
    }

    /// Every member of these settings that is set is sent under `key[member]`,
    /// with its text (a boolean as `true`/`false`, a number in decimal).
    pub proof fn lemma_form_sends_members(self, key: Seq<char>)
        ensures
            self.birthdate is Some ==> self.form_view(key).contains((member_key(key, "birthdate"@), self.birthdate.unwrap()@)),
            self.locale is Some ==> self.form_view(key).contains((member_key(key, "locale"@), self.locale.unwrap()@)),
            self.form_view(key).contains((member_key(key, "name"@), self.name@)),
            self.short_name is Some ==> self.form_view(key).contains((member_key(key, "short_name"@), self.short_name.unwrap()@)),
            self.skip_registration is Some ==> self.form_view(key).contains((member_key(key, "skip_registration"@), bool_text(self.skip_registration.unwrap()))),
            self.sortable_name is Some ==> self.form_view(key).contains((member_key(key, "sortable_name"@), self.sortable_name.unwrap()@)),
            self.terms_of_use is Some ==> self.form_view(key).contains((member_key(key, "terms_of_use"@), bool_text(self.terms_of_use.unwrap()))),
            self.time_zone is Some ==> self.form_view(key).contains((member_key(key, "time_zone"@), self.time_zone.unwrap()@)),
    {
        let parts = seq![
            field(key, "birthdate"@, text_of(self.birthdate)),
            field(key, "locale"@, text_of(self.locale)),
            field(key, "name"@, Some(self.name@)),
            field(key, "short_name"@, text_of(self.short_name)),
            field(key, "skip_registration"@, bool_of(self.skip_registration)),
            field(key, "sortable_name"@, text_of(self.sortable_name)),
            field(key, "terms_of_use"@, bool_of(self.terms_of_use)),
            field(key, "time_zone"@, text_of(self.time_zone)),
        ];
        assert(self.form_view(key) == concat_upto(parts, 8)) by {
            assert(concat_upto(parts, 0) == Seq::<(Seq<char>, Seq<char>)>::empty());
            assert(concat_upto(parts, 1) =~= parts[0]);
            assert(concat_upto(parts, 2) == concat_upto(parts, 1) + parts[1]);
            assert(concat_upto(parts, 3) == concat_upto(parts, 2) + parts[2]);
            assert(concat_upto(parts, 4) == concat_upto(parts, 3) + parts[3]);
            assert(concat_upto(parts, 5) == concat_upto(parts, 4) + parts[4]);
            assert(concat_upto(parts, 6) == concat_upto(parts, 5) + parts[5]);
            assert(concat_upto(parts, 7) == concat_upto(parts, 6) + parts[6]);
            assert(concat_upto(parts, 8) == concat_upto(parts, 7) + parts[7]);
        }
        assert(self.birthdate is Some ==> self.form_view(key).contains((member_key(key, "birthdate"@), self.birthdate.unwrap()@))) by {
            if self.birthdate is Some {
                assert(parts[0][0] == (member_key(key, "birthdate"@), self.birthdate.unwrap()@));
                lemma_part_in_concat(parts, 8, 0, (member_key(key, "birthdate"@), self.birthdate.unwrap()@));
            }
        }
        assert(self.locale is Some ==> self.form_view(key).contains((member_key(key, "locale"@), self.locale.unwrap()@))) by {
            if self.locale is Some {
                assert(parts[1][0] == (member_key(key, "locale"@), self.locale.unwrap()@));
                lemma_part_in_concat(parts, 8, 1, (member_key(key, "locale"@), self.locale.unwrap()@));
            }
        }
        assert(self.form_view(key).contains((member_key(key, "name"@), self.name@))) by {
            assert(parts[2][0] == (member_key(key, "name"@), self.name@));
            lemma_part_in_concat(parts, 8, 2, (member_key(key, "name"@), self.name@));
        }
        assert(self.short_name is Some ==> self.form_view(key).contains((member_key(key, "short_name"@), self.short_name.unwrap()@))) by {
            if self.short_name is Some {
                assert(parts[3][0] == (member_key(key, "short_name"@), self.short_name.unwrap()@));
                lemma_part_in_concat(parts, 8, 3, (member_key(key, "short_name"@), self.short_name.unwrap()@));
            }
        }
        assert(self.skip_registration is Some ==> self.form_view(key).contains((member_key(key, "skip_registration"@), bool_text(self.skip_registration.unwrap())))) by {
            if self.skip_registration is Some {
                assert(parts[4][0] == (member_key(key, "skip_registration"@), bool_text(self.skip_registration.unwrap())));
                lemma_part_in_concat(parts, 8, 4, (member_key(key, "skip_registration"@), bool_text(self.skip_registration.unwrap())));
            }
        }
        assert(self.sortable_name is Some ==> self.form_view(key).contains((member_key(key, "sortable_name"@), self.sortable_name.unwrap()@))) by {
            if self.sortable_name is Some {
                assert(parts[5][0] == (member_key(key, "sortable_name"@), self.sortable_name.unwrap()@));
                lemma_part_in_concat(parts, 8, 5, (member_key(key, "sortable_name"@), self.sortable_name.unwrap()@));
            }
        }
        assert(self.terms_of_use is Some ==> self.form_view(key).contains((member_key(key, "terms_of_use"@), bool_text(self.terms_of_use.unwrap())))) by {
            if self.terms_of_use is Some {
                assert(parts[6][0] == (member_key(key, "terms_of_use"@), bool_text(self.terms_of_use.unwrap())));
                lemma_part_in_concat(parts, 8, 6, (member_key(key, "terms_of_use"@), bool_text(self.terms_of_use.unwrap())));
            }
        }
        assert(self.time_zone is Some ==> self.form_view(key).contains((member_key(key, "time_zone"@), self.time_zone.unwrap()@))) by {
            if self.time_zone is Some {
                assert(parts[7][0] == (member_key(key, "time_zone"@), self.time_zone.unwrap()@));
                lemma_part_in_concat(parts, 8, 7, (member_key(key, "time_zone"@), self.time_zone.unwrap()@));
            }
        }
    }
}

} // verus!
