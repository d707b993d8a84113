//! Chat endpoints of the `api` endpoint set.

use vstd::prelude::*;
use crate::routing::{endpoint, route, Endpoint, Method};

verus! {

/// The chat endpoints of the `api` endpoint set.
pub open spec fn api_chat_routes() -> Seq<Endpoint> {
    seq![
        endpoint(Method::Post, "/create_dm"),
        endpoint(Method::Post, "/create_channel"),
        endpoint(Method::Post, "/create_group"),
        endpoint(Method::Post, "/join_chat"),
        endpoint(Method::Delete, "/delete_chat"),
        endpoint(Method::Post, "/leave_chat"),
        endpoint(Method::Delete, "/update_chat_member_perm"),
        endpoint(Method::Get, "/list_chats"),
        endpoint(Method::Post, "/list_chat_members"),
    ]
}

/// The endpoints this module mounts.
pub fn routes() -> (r: Vec<Endpoint>)
    ensures
        r@ == api_chat_routes(),
{
    vec![
        route(Method::Post, "/create_dm"),
        route(Method::Post, "/create_channel"),
        route(Method::Post, "/create_group"),
        route(Method::Post, "/join_chat"),
        route(Method::Delete, "/delete_chat"),
        route(Method::Post, "/leave_chat"),
        route(Method::Delete, "/update_chat_member_perm"),
        route(Method::Get, "/list_chats"),
        route(Method::Post, "/list_chat_members"),
    ]
}

/// The chat endpoints of the `api` set, in order, with their methods.
pub proof fn law_api_chat_endpoints()
    ensures
        api_chat_routes().len() == 9,
        api_chat_routes()[0] == (Endpoint { method: Method::Post, path: "/create_dm", rank: None }),
        api_chat_routes()[1] == (Endpoint { method: Method::Post, path: "/create_channel", rank: None }),
        api_chat_routes()[2] == (Endpoint { method: Method::Post, path: "/create_group", rank: None }),
        api_chat_routes()[3] == (Endpoint { method: Method::Post, path: "/join_chat", rank: None }),
        api_chat_routes()[4] == (Endpoint { method: Method::Delete, path: "/delete_chat", rank: None }),
        api_chat_routes()[5] == (Endpoint { method: Method::Post, path: "/leave_chat", rank: None }),
        api_chat_routes()[6] == (Endpoint { method: Method::Delete, path: "/update_chat_member_perm", rank: None }),
        api_chat_routes()[7] == (Endpoint { method: Method::Get, path: "/list_chats", rank: None }),
        api_chat_routes()[8] == (Endpoint { method: Method::Post, path: "/list_chat_members", rank: None }),
{
}

} // verus!
