//! A client for the Canvas LMS REST API.
//!
//! The library decides everything about a call that does not need the network:
//! which URL a request goes to, which form or query parameters it carries, how a
//! Canvas error response maps to a [`error::CanvasError`], how a `Link` header
//! names the next page, and in which order the items of a paginated listing are
//! handed out. Sending the requests and decoding the JSON is left to the caller.
pub mod text;
pub mod json;
pub mod params;
pub mod urls;
pub mod error;

pub use error::{CanvasError, Result};
pub mod http;
pub mod pagination;
pub mod resources;
pub mod client;
pub mod graphql;

pub use client::Canvas;
