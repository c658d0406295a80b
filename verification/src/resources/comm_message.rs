use vstd::prelude::*;

verus! {

/// A Canvas communication message (email, SMS, push notification, etc.).
#[derive(Debug)]
pub struct CommMessage {
    pub id: Option<u64>,
    /// A time, as RFC 3339 text.
    pub created_at: Option<String>,
    /// A time, as RFC 3339 text.
    pub sent_at: Option<String>,
    pub workflow_state: Option<String>,
    pub from: Option<String>,
    pub from_name: Option<String>,
    pub to: Option<String>,
    pub reply_to: Option<String>,
    pub subject: Option<String>,
    pub body: Option<String>,
    pub html_body: Option<String>,
    pub author_id: Option<u64>,
}

} // verus!
