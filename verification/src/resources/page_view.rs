use vstd::prelude::*;
use crate::params::entry;

verus! {

/// A single Canvas page view (access log entry) for a user.
#[derive(Debug)]
pub struct PageView {
    pub id: Option<String>,
    pub app_name: Option<String>,
    pub url: Option<String>,
    pub context_type: Option<String>,
    pub asset_type: Option<String>,
    pub controller: Option<String>,
    pub action: Option<String>,
    pub contributed: Option<bool>,
    /// A decimal, as the text `serde_json` prints for it (`10.0`, `2.5`).
    pub interaction_seconds: Option<String>,
    /// A time, as RFC 3339 text.
    pub created_at: Option<String>,
    /// A time, as RFC 3339 text.
    pub updated_at: Option<String>,
    pub developer_key_id: Option<u64>,
    pub user_request: Option<bool>,
    /// A decimal, as the text `serde_json` prints for it (`10.0`, `2.5`).
    pub render_time: Option<String>,
    pub user_agent: Option<String>,
    pub participated: Option<bool>,
    pub http_method: Option<String>,
    pub remote_ip: Option<String>,
}

} // verus!
