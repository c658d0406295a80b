use vstd::prelude::*;

verus! {

/// A content license available in Canvas.
#[derive(Debug)]
pub struct License {
    pub id: Option<String>,
    pub name: Option<String>,
    pub url: Option<String>,
}

} // verus!
