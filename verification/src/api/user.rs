//! User endpoints of the `api` endpoint set.

use vstd::prelude::*;
use crate::routing::{endpoint, route, Endpoint, Method};

verus! {

/// A user row as the `api` endpoint set returns it.
#[derive(Clone, Debug)]
pub struct User {
    pub user_id: i64,
    pub phone_number: String,
    pub name: String,
    pub email: String,
    pub location: String,
    pub username: String,
    pub password: String,
    pub bio: Option<String>,
    pub php_file_id: Option<i64>,
}

/// The user endpoints of the `api` endpoint set.
pub open spec fn api_user_routes() -> Seq<Endpoint> {
    seq![
        endpoint(Method::Post, "/create_user"),
        endpoint(Method::Get, "/list_users"),
        endpoint(Method::Post, "/login"),
        endpoint(Method::Get, "/who_am_i"),
        endpoint(Method::Post, "/logout"),
        endpoint(Method::Delete, "/delete_account"),
        endpoint(Method::Post, "/update_user"),
    ]
}

/// The endpoints this module mounts.
pub fn routes() -> (r: Vec<Endpoint>)
    ensures
        r@ == api_user_routes(),
{
    vec![
        route(Method::Post, "/create_user"),
        route(Method::Get, "/list_users"),
        route(Method::Post, "/login"),
        route(Method::Get, "/who_am_i"),
        route(Method::Post, "/logout"),
        route(Method::Delete, "/delete_account"),
        route(Method::Post, "/update_user"),
    ]
}

/// The user endpoints of the `api` set, in order, with their methods.
pub proof fn law_api_user_endpoints()
    ensures
        api_user_routes().len() == 7,
        api_user_routes()[0] == (Endpoint { method: Method::Post, path: "/create_user", rank: None }),
        api_user_routes()[1] == (Endpoint { method: Method::Get, path: "/list_users", rank: None }),
        api_user_routes()[2] == (Endpoint { method: Method::Post, path: "/login", rank: None }),
        api_user_routes()[3] == (Endpoint { method: Method::Get, path: "/who_am_i", rank: None }),
        api_user_routes()[4] == (Endpoint { method: Method::Post, path: "/logout", rank: None }),
        api_user_routes()[5] == (Endpoint { method: Method::Delete, path: "/delete_account", rank: None }),
        api_user_routes()[6] == (Endpoint { method: Method::Post, path: "/update_user", rank: None }),
{
}

} // verus!
