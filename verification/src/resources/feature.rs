use vstd::prelude::*;
use std::sync::Arc;
use crate::error::Result;
use crate::http::{scoped, Method, PayloadView, Request, Requester, Scope};
use crate::json::{flag, JsonValue};
use crate::params::pairs_view;
use crate::text::{dec, id_or, id_or_spec, lowercase, push_u64, to_lowercase};

verus! {

/// Metadata about a Canvas feature flag option.
#[derive(Debug)]
pub struct Feature {
    pub feature: Option<String>,
    pub display_name: Option<String>,
    pub applies_to: Option<String>,
    pub enable_at: Option<String>,
    pub beta: Option<bool>,
    pub development: Option<bool>,
    pub autoexpand: Option<bool>,
    pub feature_flag: Option<FeatureFlag>,
}

/// The state of a feature flag for a particular context (account, course, or user).
#[derive(Debug)]
pub struct FeatureFlag {
    pub feature: Option<String>,
    pub context_type: Option<String>,
    pub context_id: Option<u64>,
    /// One of: `"on"`, `"off"`, `"allowed"`, `"allowed_on"`, `"hidden"`
    pub state: Option<String>,
    pub locked: Option<bool>,
    pub transitions: Option<JsonValue>,
    pub requester: Option<Arc<Requester>>,
}

impl FeatureFlag {
    /// Takes in this FeatureFlag as fetched: it keeps `requester` for its own calls.
    pub fn adopt(&mut self, requester: Arc<Requester>, scope: &Scope)
        ensures
            final(self).requester == Some(requester),
            final(self).feature == old(self).feature,
            final(self).context_type == old(self).context_type,
            final(self).context_id == old(self).context_id,
            final(self).state == old(self).state,
            final(self).locked == old(self).locked,
            final(self).transitions == old(self).transitions,
    {
        self.requester = Some(requester);
    }

    fn req(&self) -> (r: &Arc<Requester>)
        requires
            self.requester is Some,
        ensures
            *r == self.requester.unwrap(),
    {
        self.requester.as_ref().unwrap()
    }

    /// Remove this feature flag, reverting to the inherited value.
    ///
    /// # Canvas API
    /// `DELETE /api/v1/:context_type/:context_id/features/flags/:feature`
    pub fn delete(&self) -> (r: Result<Request>)
        requires
            self.requester is Some,
        ensures
            self.requester.unwrap().sends_scoped(
                r,
                Method::Delete,
                self.flag_path_view(),
                PayloadView::Query(seq![]),
                Scope::none(),
            ),
    {
        let flag_path_text = self.flag_path_text();
        let mut endpoint = String::new();
        endpoint.append(flag_path_text.as_str());
        assert(endpoint@ =~= (self.flag_path_view()));
        let form: Vec<(String, String)> = Vec::new();
        assert(pairs_view(form@) =~= seq![]);
        scoped(self.req().delete(endpoint.as_str(), form), Scope::empty())
    }

    /// Set this feature flag to the given state.
    ///
    /// `state` must be one of: `"on"`, `"off"`, `"allowed"`, `"allowed_on"`, `"hidden"`.
    ///
    /// # Canvas API
    /// `PUT /api/v1/:context_type/:context_id/features/flags/:feature`
    pub fn set_feature_flag(&self, state: &str) -> (r: Result<Request>)
        requires
            self.requester is Some,
        ensures
            self.requester.unwrap().sends_scoped(
                r,
                Method::Put,
                self.flag_path_view(),
                PayloadView::Form(seq![("state"@, state@)]),
                Scope::none(),
            ),
    {
        let flag_path_text = self.flag_path_text();
        let mut endpoint = String::new();
        endpoint.append(flag_path_text.as_str());
        assert(endpoint@ =~= (self.flag_path_view()));
        let form: Vec<(String, String)> = vec![("state".to_owned(), state.to_owned())];
        assert(pairs_view(form@) =~= seq![("state"@, state@)]);
        scoped(self.req().put(endpoint.as_str(), form), Scope::empty())
    }
}

impl FeatureFlag {
    /// The path of this flag: the lowercased context type with an `s`, the
    /// context id (0 when unknown), then `features/flags/` and the feature name.
    pub open spec fn flag_path_view(&self) -> Seq<char> {
        lowercase(
            match self.context_type {
                Some(t) => t@,
                None => ""@,
            },
        ) + "s"@ + "/"@ + dec(id_or_spec(self.context_id, 0) as nat) + "/features/flags/"@ + match self.feature {
            Some(f) => f@,
            None => ""@,
        }
    }

    fn flag_path_text(&self) -> (s: String)
        ensures
            s@ == self.flag_path_view(),
    {
        let context_type = match &self.context_type {
            Some(t) => t.as_str(),
            None => "",
        };
        let mut s = to_lowercase(context_type);
        s.append("s");
        s.append("/");
        push_u64(&mut s, id_or(self.context_id, 0));
        s.append("/features/flags/");
        match &self.feature {
            Some(f) => s.append(f.as_str()),
            None => s.append(""),
        }
        s
    }
}

} // verus!
