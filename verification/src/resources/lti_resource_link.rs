use vstd::prelude::*;
use crate::json::JsonValue;
use crate::params::{
    add_json_at, add_required_text_at, add_text_at, canvas_params, concat_upto, entry,
    lemma_part_in_concat, pairs_view, text_of,
};

verus! {

#[derive(Debug, Default)]
pub struct CreateLtiResourceLinkParams {
    pub url: String,
    pub title: Option<String>,
    pub custom: Option<JsonValue>,
}

impl CreateLtiResourceLinkParams {
    /// The parameters these settings give at the top level: each member that
    /// is set under its own name, in the order of the member names.
    pub open spec fn flat_view(self) -> Seq<(Seq<char>, Seq<char>)> {
        (match self.custom {
            Some(v) => canvas_params("custom"@, v),
            None => seq![],
        })
        + entry("title"@, text_of(self.title))
        + entry("url"@, Some(self.url@))
    }

    /// The parameters these settings give at the top level (what flattening the
    /// settings object gives).
    pub fn to_flat(&self) -> (r: Vec<(String, String)>)
        ensures
            pairs_view(r@) == self.flat_view(),
    {
        let mut out: Vec<(String, String)> = Vec::new();
        add_json_at(&mut out, "custom", &self.custom);
        add_text_at(&mut out, "title", &self.title);
        add_required_text_at(&mut out, "url", &self.url);
        assert(pairs_view(out@) =~= self.flat_view());
        out
    }

    /// Every member of these settings that is set is sent under its own name,
    /// with its text (a boolean as `true`/`false`, a number in decimal).
    pub proof fn lemma_flat_sends_members(self)
        ensures
            self.title is Some ==> self.flat_view().contains(("title"@, self.title.unwrap()@)),
            self.flat_view().contains(("url"@, self.url@)),
    {
        let parts = seq![
            (match self.custom {
                Some(v) => canvas_params("custom"@, v),
                None => seq![],
            }),
            entry("title"@, text_of(self.title)),
            entry("url"@, Some(self.url@)),
        ];
        assert(self.flat_view() == concat_upto(parts, 3)) by {
            assert(concat_upto(parts, 0) == Seq::<(Seq<char>, Seq<char>)>::empty());
            assert(concat_upto(parts, 1) =~= parts[0]);
            assert(concat_upto(parts, 2) == concat_upto(parts, 1) + parts[1]);
            assert(concat_upto(parts, 3) == concat_upto(parts, 2) + parts[2]);
        }
        assert(self.title is Some ==> self.flat_view().contains(("title"@, self.title.unwrap()@))) by {
            if self.title is Some {
                assert(parts[1][0] == ("title"@, self.title.unwrap()@));
                lemma_part_in_concat(parts, 3, 1, ("title"@, self.title.unwrap()@));
            }
        }
        assert(self.flat_view().contains(("url"@, self.url@))) by {
            assert(parts[2][0] == ("url"@, self.url@));
            lemma_part_in_concat(parts, 3, 2, ("url"@, self.url@));
        }
    }
}

/// An LTI resource link in a Canvas course.
#[derive(Debug)]
pub struct LtiResourceLink {
    pub id: u64,
    pub url: Option<String>,
    pub title: Option<String>,
    pub custom: Option<JsonValue>,
    /// A time, as RFC 3339 text.
    pub created_at: Option<String>,
    /// A time, as RFC 3339 text.
    pub updated_at: Option<String>,
}

} // verus!
