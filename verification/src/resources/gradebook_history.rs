use vstd::prelude::*;
use crate::json::JsonValue;
use crate::params::entry;

verus! {

/// A day summary in the gradebook history.
#[derive(Debug)]
pub struct Day {
    pub date: Option<String>,
    pub graders: Option<u64>,
}

/// A grader entry in the gradebook history.
#[derive(Debug)]
pub struct Grader {
    pub id: Option<u64>,
    pub name: Option<String>,
    pub assignments: Option<Vec<JsonValue>>,
}

/// A specific version of a submission from the gradebook history.
#[derive(Debug)]
pub struct SubmissionVersion {
    pub id: Option<u64>,
    pub assignment_id: Option<u64>,
    pub assignment_name: Option<String>,
    pub body: Option<String>,
    pub course_id: Option<u64>,
    pub grade: Option<String>,
    pub grader: Option<String>,
    pub grader_id: Option<u64>,
    pub new_grade: Option<String>,
    /// A time, as RFC 3339 text.
    pub new_graded_at: Option<String>,
    pub new_grader: Option<String>,
    pub previous_grade: Option<String>,
    /// A time, as RFC 3339 text.
    pub previous_graded_at: Option<String>,
    pub previous_grader: Option<String>,
    /// A decimal, as the text `serde_json` prints for it (`10.0`, `2.5`).
    pub score: Option<String>,
    pub user_name: Option<String>,
    pub submission_type: Option<String>,
    pub url: Option<String>,
    pub user_id: Option<u64>,
    pub workflow_state: Option<String>,
}

/// The version history for a single submission.
#[derive(Debug)]
pub struct SubmissionHistory {
    pub submission_id: Option<u64>,
    pub versions: Option<Vec<SubmissionVersion>>,
}

} // verus!
