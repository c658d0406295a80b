use vstd::prelude::*;

verus! {

/// A Canvas JWT token, used with other Canvas services.
#[derive(Debug)]
pub struct CanvasJwt {
    pub token: Option<String>,
    pub expires_at: Option<String>,
}

} // verus!
