//! The errors of the Canvas client.
use vstd::prelude::*;

verus! {

/// The HTTP client's error.
#[verifier::external_type_specification]
#[verifier::external_body]
pub struct ExHttpError(reqwest::Error);

/// The JSON decoder's error.
#[verifier::external_type_specification]
#[verifier::external_body]
pub struct ExJsonError(serde_json::Error);

/// An I/O error.
#[verifier::external_type_specification]
#[verifier::external_body]
pub struct ExIoError(std::io::Error);

/// One entry of the `errors` list of a Canvas error body.
#[derive(Debug, Clone)]
pub struct ApiError {
    pub message: Option<String>,
    /// The `type` member of the entry.
    pub error_type: Option<String>,
}

/// The body that Canvas sends with an error status.
#[derive(Debug)]
pub struct CanvasErrorBody {
    pub errors: Option<Vec<ApiError>>,
    pub error: Option<String>,
    pub error_report_id: Option<u64>,
}

/// What went wrong in a call to Canvas.
#[derive(Debug)]
pub enum CanvasError {
    /// Status 400.
    BadRequest { message: String, errors: Vec<ApiError> },
    /// Status 401 with a `WWW-Authenticate` header.
    InvalidAccessToken(String),
    /// Status 401 without a `WWW-Authenticate` header.
    Unauthorized(String),
    /// Status 403.
    Forbidden(String),
    /// Status 404.
    ResourceDoesNotExist,
    /// Status 409.
    Conflict(String),
    /// Status 422.
    UnprocessableEntity(String),
    /// Status 429, with the `X-Rate-Limit-Remaining` header if there was one.
    RateLimitExceeded { remaining: Option<String> },
    /// Any other failing status, or a refused argument (status 0).
    ApiError { status: u16, message: String },
    /// The HTTP client failed.
    Http(reqwest::Error),
    /// A JSON document could not be decoded.
    Json(serde_json::Error),
    /// A URL could not be parsed.
    Url(url::ParseError),
    /// An I/O error.
    Io(std::io::Error),
}

/// `e` is a `BadRequest` with `message` and no entries.
pub open spec fn is_bad_request(e: CanvasError, message: Seq<char>) -> bool {
    e matches CanvasError::BadRequest { message: m, errors } && m@ == message && errors@.len() == 0
}

/// A `BadRequest` with `message` and no entries: what the client answers, without
/// calling Canvas, when an argument or the object it is called on cannot make a
/// valid request.
pub fn bad_request(message: &str) -> (e: CanvasError)
    ensures
        is_bad_request(e, message@),
{
    CanvasError::BadRequest { message: message.to_owned(), errors: Vec::new() }
}

/// The result of a call to Canvas.
pub type Result<T> = core::result::Result<T, CanvasError>;

} // verus!
