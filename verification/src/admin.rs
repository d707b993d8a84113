//! Administration endpoints.

use vstd::prelude::*;
use crate::db::Statement;
use crate::routing::{endpoint, route, Endpoint, Method};

verus! {

/// Lists every user.
pub const LIST_USERS_SQL: &'static str = "SELECT * FROM users";

/// The statement that lists every user.
pub fn list_users() -> (r: Statement)
    ensures
        r.sql == LIST_USERS_SQL,
        r.params@.len() == 0,
{
    Statement { sql: LIST_USERS_SQL, params: Vec::new() }
}

/// The endpoints of the administration module.
pub open spec fn admin_routes() -> Seq<Endpoint> {
    seq![endpoint(Method::Get, "/list_users")]
}

/// The endpoints this module mounts.
pub fn routes() -> (r: Vec<Endpoint>)
    ensures
        r@ == admin_routes(),
{
    vec![route(Method::Get, "/list_users")]
}

/// The administration module mounts one endpoint: listing every user (GET).
pub proof fn law_admin_endpoints()
    ensures
        admin_routes().len() == 1,
        admin_routes()[0] == (Endpoint { method: Method::Get, path: "/list_users", rank: None }),
{
}

} // verus!
