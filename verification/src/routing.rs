//! The endpoints that each module mounts, as data: the HTTP method, the path
//! pattern, and the rank where one is given.

use vstd::prelude::*;

verus! {

/// An HTTP method.
#[derive(Clone, Copy, Debug, PartialEq, Eq, Structural)]
pub enum Method {
    Get,
    Post,
    Delete,
}

/// One mounted endpoint.
#[derive(Clone, Copy, Debug, PartialEq, Eq)]
pub struct Endpoint {
    pub method: Method,
    pub path: &'static str,
    pub rank: Option<i64>,
}

/// The endpoint `method path`, with no rank of its own.
pub open spec fn endpoint(method: Method, path: &'static str) -> Endpoint {
    Endpoint { method, path, rank: None }
}

/// Builds the endpoint `method path`, with no rank of its own.
pub fn route(method: Method, path: &'static str) -> (r: Endpoint)
    ensures
        r == endpoint(method, path),
{
    Endpoint { method, path, rank: None }
}

} // verus!
