//! Message endpoints of the `api` endpoint set.

use vstd::prelude::*;
use crate::routing::{endpoint, route, Endpoint, Method};

verus! {

/// The message endpoints of the `api` endpoint set.
pub open spec fn api_message_routes() -> Seq<Endpoint> {
    seq![
        endpoint(Method::Post, "/send_message"),
        endpoint(Method::Delete, "/delete_message"),
        endpoint(Method::Post, "/update_message"),
    ]
}

/// The endpoints this module mounts.
pub fn routes() -> (r: Vec<Endpoint>)
    ensures
        r@ == api_message_routes(),
{
    vec![
        route(Method::Post, "/send_message"),
        route(Method::Delete, "/delete_message"),
        route(Method::Post, "/update_message"),
    ]
}

/// The message endpoints of the `api` set, in order, with their methods.
pub proof fn law_api_message_endpoints()
    ensures
        api_message_routes().len() == 3,
        api_message_routes()[0] == (Endpoint { method: Method::Post, path: "/send_message", rank: None }),
        api_message_routes()[1] == (Endpoint { method: Method::Delete, path: "/delete_message", rank: None }),
        api_message_routes()[2] == (Endpoint { method: Method::Post, path: "/update_message", rank: None }),
{
}

} // verus!
