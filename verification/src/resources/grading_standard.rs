use vstd::prelude::*;
use crate::params::{add_text_at, entry, pairs_view, text_of};

verus! {

#[derive(Debug)]
pub struct GradingSchemeEntry {
    pub name: Option<String>,
    /// A decimal, as the text `serde_json` prints for it (`10.0`, `2.5`).
    pub value: Option<String>,
}

#[derive(Debug)]
pub struct GradingStandard {
    pub id: u64,
    pub title: Option<String>,
    pub context_type: Option<String>,
    pub context_id: Option<u64>,
    pub grading_scheme: Option<Vec<GradingSchemeEntry>>,
}

#[derive(Debug, Default)]
pub struct GradingStandardParams {
    pub title: String,
    pub grading_scheme_entry: Vec<GradingSchemeEntry>,
}

/// The parameters of one grading scheme entry inside a list sent under
/// `grading_scheme_entry`: its `name` and its `value`, each when set.
pub open spec fn scheme_entry_view(e: GradingSchemeEntry) -> Seq<(Seq<char>, Seq<char>)> {
    entry("grading_scheme_entry[][name]"@, text_of(e.name)) + entry(
        "grading_scheme_entry[][value]"@,
        text_of(e.value),
    )
}

/// The parameters of a list of grading scheme entries sent under
/// `grading_scheme_entry`, entry after entry.
pub open spec fn scheme_entries_view(entries: Seq<GradingSchemeEntry>) -> Seq<(Seq<char>, Seq<char>)>
    decreases entries.len(),
{
    if entries.len() == 0 {
        seq![]
    } else {
        scheme_entries_view(entries.subrange(0, entries.len() - 1)) + scheme_entry_view(
            entries[entries.len() - 1],
        )
    }
}

impl GradingStandardParams {
    /// The form of a new grading standard: the entries under
    /// `grading_scheme_entry[]`, then `title`.
    pub open spec fn standard_form_view(self) -> Seq<(Seq<char>, Seq<char>)> {
        scheme_entries_view(self.grading_scheme_entry@) + seq![("title"@, self.title@)]
    }

    /// The form of a new grading standard (see [`Self::standard_form_view`]).
    pub fn to_standard_form(&self) -> (r: Vec<(String, String)>)
        ensures
            pairs_view(r@) == self.standard_form_view(),
    {
        let mut out: Vec<(String, String)> = Vec::new();
        let entries = &self.grading_scheme_entry;
        let mut i: usize = 0;
        while i < entries.len()
            invariant
                i <= entries@.len(),
                pairs_view(out@) == scheme_entries_view(entries@.subrange(0, i as int)),
            decreases entries@.len() - i,
        {
            let ghost prefix = entries@.subrange(0, i + 1);
            assert(prefix.subrange(0, prefix.len() - 1) =~= entries@.subrange(0, i as int));
            let ghost before = pairs_view(out@);
            add_text_at(&mut out, "grading_scheme_entry[][name]", &entries[i].name);
            add_text_at(&mut out, "grading_scheme_entry[][value]", &entries[i].value);
            assert(pairs_view(out@) =~= before + scheme_entry_view(entries@[i as int]));
            i = i + 1;
        }
        assert(entries@.subrange(0, entries@.len() as int) =~= entries@);
        let ghost before = pairs_view(out@);
        out.push(("title".to_owned(), self.title.clone()));
        assert(pairs_view(out@) =~= before + seq![("title"@, self.title@)]);
        out
    }
}

} // verus!
