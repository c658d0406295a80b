use vstd::prelude::*;
use crate::json::JsonValue;
use crate::params::pairs_view;
use crate::text::{bool_text, bool_to_text};

verus! {

#[derive(Debug)]
pub struct ContentExport {
    pub id: u64,
    pub created_at: Option<String>,
    pub export_type: Option<String>,
    pub user_id: Option<u64>,
    pub workflow_state: Option<String>,
    pub course_id: Option<u64>,
    pub attachment: Option<JsonValue>,
    pub progress_url: Option<String>,
}

#[derive(Debug, Default)]
pub struct ContentExportParams {
    pub export_type: String,
    pub skip_notifications: Option<bool>,
}

impl ContentExportParams {
    /// The form of an export request: `export_type`, then `skip_notifications`
    /// (`false` when not set).
    pub open spec fn export_form_view(self) -> Seq<(Seq<char>, Seq<char>)> {
        seq![
            ("export_type"@, self.export_type@),
            ("skip_notifications"@, bool_text(
                match self.skip_notifications {
                    Some(b) => b,
                    None => false,
                },
            )),
        ]
    }

    /// The form of an export request (see [`Self::export_form_view`]).
    pub fn to_export_form(&self) -> (r: Vec<(String, String)>)
        ensures
            pairs_view(r@) == self.export_form_view(),
    {
        let skip = match self.skip_notifications {
            Some(b) => b,
            None => false,
        };
        let r = vec![
            ("export_type".to_owned(), self.export_type.clone()),
            ("skip_notifications".to_owned(), bool_to_text(skip)),
        ];
        assert(pairs_view(r@) =~= self.export_form_view());
        r
    }
}

impl ContentExportParams {
    /// An export request sends the export type, and whether to skip
    /// notifications as `true`/`false`, `false` when it is not set.
    pub proof fn lemma_export_form_members(self)
        ensures
            self.export_form_view().contains(("export_type"@, self.export_type@)),
            self.skip_notifications is Some ==> self.export_form_view().contains(
                ("skip_notifications"@, bool_text(self.skip_notifications.unwrap())),
            ),
            self.skip_notifications is None ==> self.export_form_view().contains(("skip_notifications"@, "false"@)),
            self.export_form_view().len() == 2,
    {
        reveal_strlit("false");
        let f = self.export_form_view();
        assert(f[0] == ("export_type"@, self.export_type@));
        assert(f[1].0 == "skip_notifications"@);
        assert(bool_text(false) =~= "false"@);
    }
}

} // verus!
