//! Absolute URLs, through the `url` crate.
//!
//! The library keeps URLs as the text of their serialization. Parsing and
//! resolving follow the WHATWG URL standard as the `url` crate implements it;
//! that algorithm is not restated here, its results are named.
use vstd::prelude::*;

verus! {

/// The `url` crate's parse error.
#[verifier::external_type_specification]
#[verifier::external_body]
pub struct ExParseError(url::ParseError);

/// The serialization of the absolute URL that `input` parses to, or `None` when
/// `url::Url::parse` refuses it.
pub uninterp spec fn url_parse(input: Seq<char>) -> Option<Seq<char>>;

/// The serialization of `input` resolved against the URL that `base` parses to
/// (`url::Url::parse`, then `url::Url::join`), or `None` when either fails.
pub uninterp spec fn url_join(base: Seq<char>, input: Seq<char>) -> Option<Seq<char>>;

/// The error that `url::Url::parse` refuses `input` with, where it refuses it.
pub uninterp spec fn url_parse_error(input: Seq<char>) -> url::ParseError;

/// The error that parsing `base`, then joining `input` to it, fails with, where
/// one of them fails.
pub uninterp spec fn url_join_error(base: Seq<char>, input: Seq<char>) -> url::ParseError;

/// Parses an absolute URL with `url::Url::parse` and gives its serialization.
/// Claimed: the result is `Ok` exactly when `url_parse` of the input is some
/// text, and then it is that text; otherwise the error is `url_parse_error`
/// of the input.
#[verifier::external_body]
pub fn parse_url(input: &str) -> (r: core::result::Result<String, url::ParseError>)
    ensures
        match r {
            Ok(u) => url_parse(input@) == Some(u@),
            Err(e) => url_parse(input@) is None && e == url_parse_error(input@),
        },
{
    match url::Url::parse(input) {
        Ok(u) => Ok(String::from(u)),
        Err(e) => Err(e),
    }
}

/// Resolves `input` against `base` with `url::Url::join` (the base text is read
/// back into a `url::Url` first) and gives the serialization of the result.
/// Claimed: `Ok` exactly when `url_join(base, input)` is some text, and then it
/// is that text; otherwise the error is `url_join_error` of the two.
#[verifier::external_body]
pub fn join_url(base: &str, input: &str) -> (r: core::result::Result<String, url::ParseError>)
    ensures
        match r {
            Ok(u) => url_join(base@, input@) == Some(u@),
            Err(e) => url_join(base@, input@) is None && e == url_join_error(base@, input@),
        },
{
    match url::Url::parse(base) {
        Ok(b) => match b.join(input) {
            Ok(u) => Ok(String::from(u)),
            Err(e) => Err(e),
        },
        Err(e) => Err(e),
    }
}

} // verus!
