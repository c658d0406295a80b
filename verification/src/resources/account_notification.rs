use vstd::prelude::*;

verus! {

/// A global notification shown to users in a Canvas account.
#[derive(Debug)]
pub struct AccountNotification {
    pub id: Option<u64>,
    pub subject: Option<String>,
    pub message: Option<String>,
    /// A time, as RFC 3339 text.
    pub start_at: Option<String>,
    /// A time, as RFC 3339 text.
    pub end_at: Option<String>,
    pub icon: Option<String>,
}

} // verus!
