//! GraphQL queries against a Canvas instance.
use vstd::prelude::*;
use std::sync::Arc;
use crate::http::{bearer, is_graphql_body, Method, Payload, Request, Requester, Scope};
use crate::json::JsonValue;

verus! {

/// GraphQL client bound to a Canvas instance.
///
/// Obtain one via [`Canvas::graphql()`][crate::client::Canvas::graphql].
pub struct GraphQL {
    pub requester: Arc<Requester>,
}

impl GraphQL {
    /// Execute a raw GraphQL query against the Canvas `/api/graphql` endpoint.
    ///
    /// The answer is the full JSON response (including `data` and optional
    /// `errors` fields).
    pub fn query(&self, query: &str, variables: Option<JsonValue>) -> (q: Request)
        ensures
            q.method == Method::Post,
            q.url@ == self.requester.graphql_endpoint(),
            q.authorization@ == bearer(self.requester.token()),
            q.payload matches Payload::Json(body) && is_graphql_body(body, query@, variables),
            q.scope == Scope::none(),
    {
        self.requester.graphql_query(query, variables)
    }
}

} // verus!
