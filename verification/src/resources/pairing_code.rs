use vstd::prelude::*;

verus! {

/// A pairing code used to link an observer to a student.
#[derive(Debug)]
pub struct PairingCode {
    pub user_id: Option<u64>,
    pub code: Option<String>,
    /// A time, as RFC 3339 text.
    pub expires_at: Option<String>,
    pub workflow_state: Option<String>,
}

} // verus!
