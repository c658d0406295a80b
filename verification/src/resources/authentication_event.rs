use vstd::prelude::*;
use crate::params::entry;

verus! {

/// A Canvas authentication event log entry.
#[derive(Debug)]
pub struct AuthenticationEvent {
    /// A time, as RFC 3339 text.
    pub created_at: Option<String>,
    pub event_type: Option<String>,
    pub pseudonym_id: Option<u64>,
    pub user_id: Option<u64>,
}

} // verus!
