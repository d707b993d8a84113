//! Users, their public profile, and the login cookie that names them.

use vstd::prelude::*;
use crate::db::{Statement, Value};
use crate::decimal::{format_i64, format_i64_spec, parse_i64, parse_i64_spec};
use crate::ids::{FileId, UserId};
use crate::sessions::SessionEvent;
use crate::routing::{endpoint, route, Endpoint, Method};

verus! {

/// A request made by a logged-in user, named by the `user_id` cookie.
#[derive(Clone, Copy, Debug, PartialEq, Eq, Structural, Hash, PartialOrd, Ord)]
pub struct UserLoggedIn(UserId);

impl UserLoggedIn {
    /// The logged-in user.
    pub fn id(&self) -> (r: UserId)
        ensures
            r == self.user(),
    {
        self.0
    }

    /// The user id this login stands for.
    pub closed spec fn user(self) -> UserId {
        self.0
    }
}

/// The value of the `user_id` cookie that names `user`: its id in decimal.
pub fn user_cookie_value(user: UserId) -> (r: String)
    ensures
        r@ == format_i64_spec(user.0),
{
    format_i64(user.0)
}

/// The logged-in user that a `user_id` cookie names, if its value reads as an
/// id.
pub fn user_from_cookie(value: &str) -> (r: Option<UserLoggedIn>)
    ensures
        r is Some <==> parse_i64_spec(value@) is Some,
        r matches Some(u) ==> u.user() == UserId(parse_i64_spec(value@)->0),
{
    match parse_i64(value) {
        Some(id) => Some(UserLoggedIn(UserId(id))),
        None => None,
    }
}

/// A user row, as the account owner sees it.
#[derive(Clone, Debug)]
pub struct User {
    pub user_id: i64,
    pub phone_number: String,
    pub name: String,
    pub email: String,
    pub location: String,
    pub username: String,
    pub password: String,
    pub bio: Option<String>,
    pub pfp_file_id: Option<i64>,
}

/// What anyone may see of a user.
#[derive(Clone, Debug)]
pub struct SafeUser {
    pub user_id: UserId,
    pub display_name: String,
    pub bio: String,
    pub pfp_file_id: Option<i64>,
}

/// The name shown for a user: the username where there is one, else the
/// phone number.
pub open spec fn shown_name(username: Option<Seq<char>>, phone_number: Seq<char>) -> Seq<char> {
    match username {
        Some(name) => name,
        None => phone_number,
    }
}

/// The view of an optional string.
pub open spec fn opt_view(s: Option<String>) -> Option<Seq<char>> {
    match s {
        Some(v) => Some(v@),
        None => None,
    }
}

/// The name shown for a user: the username where there is one, else the
/// phone number.
pub fn display_name(username: Option<String>, phone_number: String) -> (r: String)
    ensures
        r@ == shown_name(opt_view(username), phone_number@),
{
    match username {
        Some(name) => name,
        None => phone_number,
    }
}

impl SafeUser {
    /// The public profile of the user row `user_id`.
    pub fn from_row(
        user_id: UserId,
        username: Option<String>,
        phone_number: String,
        bio: String,
        pfp_file_id: Option<i64>,
    ) -> (r: SafeUser)
        ensures
            r.user_id == user_id,
            r.display_name@ == shown_name(opt_view(username), phone_number@),
            r.bio@ == bio@,
            r.pfp_file_id == pfp_file_id,
    {
        SafeUser {
            user_id,
            display_name: display_name(username, phone_number),
            bio,
            pfp_file_id,
        }
    }
}

/// The texts of `names`, one after the other.
pub open spec fn concatenation(names: Seq<Seq<char>>) -> Seq<char>
    decreases names.len(),
{
    if names.len() == 0 {
        Seq::empty()
    } else {
        concatenation(names.drop_last()) + names.last()
    }
}

/// The answer of the username lookup: the names of the matching rows, one
/// after the other.
pub fn joined_names(names: &Vec<String>) -> (r: String)
    ensures
        r@ == concatenation(names@.map_values(|n: String| n@)),
{
    let mut r = String::new();
    let ghost all = names@.map_values(|n: String| n@);
    let mut i: usize = 0;
    while i < names.len()
        invariant
            i <= names.len(),
            all == names@.map_values(|n: String| n@),
            r@ == concatenation(all.take(i as int)),
        decreases names.len() - i,
    {
        r.append(names[i].as_str());
        assert(all.take(i + 1).drop_last() =~= all.take(i as int));
        i = i + 1;
    }
    assert(all.take(names.len() as int) =~= all);
    r
}

/// Reads one user row.
pub const LOAD_USER_SQL: &'static str = "SELECT user_id, phone_number, name, email, location, username, password, bio, pfp_file_id FROM users WHERE user_id=?1";

/// Creates a user; no row comes back when the phone number, email or
/// username is taken.
pub const NEW_USER_SQL: &'static str = "
            INSERT INTO users 
                (phone_number, name, email, location, username, password) 
            VALUES 
                (?1, ?2, ?3, ?4, ?5, ?6)
            RETURNING user_id";

/// Replaces the profile of a user.
pub const UPDATE_USER_SQL: &'static str = "
            UPDATE users
            SET phone_number=:phone_number, name=:name, email=:email, location=:location, username=:username, password=:password, bio=:bio
            WHERE user_id=:user_id
        ";

/// Sets the profile picture of a user.
pub const UPDATE_USER_PFP_SQL: &'static str = "
            UPDATE users
            SET pfp_file_id=:pfp_file_id
            WHERE user_id=:user_id
        ";

/// Deletes a user.
pub const DELETE_ACCOUNT_SQL: &'static str = "DELETE FROM users WHERE user_id=:user_id";

/// Reads the name shown for a user.
pub const GET_USERNAME_SQL: &'static str = "
            SELECT 
                username phone_number
            FROM 
                users
            WHERE user_id=:user_id
            ";

/// Reads the public profile of a user.
pub const GET_USER_SQL: &'static str = "
            SELECT 
                username, phone_number, bio, pfp_file_id 
            FROM 
                users
            WHERE user_id=:user_id
            ";

/// The fields of a new account.
#[derive(Clone, Debug)]
pub struct CreateUser {
    pub phone_number: String,
    pub name: String,
    pub email: String,
    pub location: String,
    pub username: String,
    pub password: String,
}

/// The new profile of an account.
#[derive(Clone, Debug)]
pub struct UpdateUser {
    pub phone_number: String,
    pub name: String,
    pub email: String,
    pub location: String,
    pub username: String,
    pub password: String,
    pub bio: String,
}

/// The statement that reads the row of `user`.
pub fn load_user(user: UserId) -> (r: Statement)
    ensures
        r.sql == LOAD_USER_SQL,
        r.params@ == seq![("?1", Value::Int(user.0))],
{
    Statement { sql: LOAD_USER_SQL, params: vec![("?1", Value::Int(user.0))] }
}

/// The statement that creates the account `create`.
pub fn new_user(create: CreateUser) -> (r: Statement)
    ensures
        r.sql == NEW_USER_SQL,
        r.params@ == seq![
            ("?1", Value::Text(create.phone_number)),
            ("?2", Value::Text(create.name)),
            ("?3", Value::Text(create.email)),
            ("?4", Value::Text(create.location)),
            ("?5", Value::Text(create.username)),
            ("?6", Value::Text(create.password)),
        ],
{
    Statement {
        sql: NEW_USER_SQL,
        params: vec![
            ("?1", Value::Text(create.phone_number)),
            ("?2", Value::Text(create.name)),
            ("?3", Value::Text(create.email)),
            ("?4", Value::Text(create.location)),
            ("?5", Value::Text(create.username)),
            ("?6", Value::Text(create.password)),
        ],
    }
}

/// The statement that gives the account of `user` the profile `updates`.
pub fn update_user(user: UserLoggedIn, updates: UpdateUser) -> (r: Statement)
    ensures
        r.sql == UPDATE_USER_SQL,
        r.params@ == seq![
            (":user_id", Value::Int(user.user().0)),
            (":phone_number", Value::Text(updates.phone_number)),
            (":name", Value::Text(updates.name)),
            (":email", Value::Text(updates.email)),
            (":location", Value::Text(updates.location)),
            (":username", Value::Text(updates.username)),
            (":password", Value::Text(updates.password)),
            (":bio", Value::Text(updates.bio)),
        ],
{
    Statement {
        sql: UPDATE_USER_SQL,
        params: vec![
            (":user_id", Value::Int(user.id().0)),
            (":phone_number", Value::Text(updates.phone_number)),
            (":name", Value::Text(updates.name)),
            (":email", Value::Text(updates.email)),
            (":location", Value::Text(updates.location)),
            (":username", Value::Text(updates.username)),
            (":password", Value::Text(updates.password)),
            (":bio", Value::Text(updates.bio)),
        ],
    }
}

/// The statement that makes file `pfp` the profile picture of `user`.
pub fn update_user_pfp(user: UserLoggedIn, pfp: FileId) -> (r: Statement)
    ensures
        r.sql == UPDATE_USER_PFP_SQL,
        r.params@ == seq![(":user_id", Value::Int(user.user().0)), (":pfp_file_id", Value::Int(pfp.0))],
{
    Statement {
        sql: UPDATE_USER_PFP_SQL,
        params: vec![(":user_id", Value::Int(user.id().0)), (":pfp_file_id", Value::Int(pfp.0))],
    }
}

/// The statement that deletes the account of `user`.
pub fn delete_account(user: UserLoggedIn) -> (r: Statement)
    ensures
        r.sql == DELETE_ACCOUNT_SQL,
        r.params@ == seq![(":user_id", Value::Int(user.user().0))],
{
    Statement { sql: DELETE_ACCOUNT_SQL, params: vec![(":user_id", Value::Int(user.id().0))] }
}

/// The statement that reads the name shown for `user`.
pub fn get_username(user: UserId) -> (r: Statement)
    ensures
        r.sql == GET_USERNAME_SQL,
        r.params@ == seq![(":user_id", Value::Int(user.0))],
{
    Statement { sql: GET_USERNAME_SQL, params: vec![(":user_id", Value::Int(user.0))] }
}

/// The statement that reads the public profile of `user`.
pub fn get_user(user: UserId) -> (r: Statement)
    ensures
        r.sql == GET_USER_SQL,
        r.params@ == seq![(":user_id", Value::Int(user.0))],
{
    Statement { sql: GET_USER_SQL, params: vec![(":user_id", Value::Int(user.0))] }
}

/// Marks a user online.
pub const MARK_AVAILABLE_SQL: &'static str = "UPDATE users SET availability=1 WHERE user_id=:user_id";

/// Marks a user offline.
pub const MARK_UNAVAILABLE_SQL: &'static str = "UPDATE users SET availability=0 WHERE user_id=:user_id";

/// The statement that marks `user` online (`available`) or offline.
pub fn set_availability(user: UserId, available: bool) -> (r: Statement)
    ensures
        r.sql == if available {
            MARK_AVAILABLE_SQL
        } else {
            MARK_UNAVAILABLE_SQL
        },
        r.params@ == seq![(":user_id", Value::Int(user.0))],
{
    let sql = if available {
        MARK_AVAILABLE_SQL
    } else {
        MARK_UNAVAILABLE_SQL
    };
    Statement { sql, params: vec![(":user_id", Value::Int(user.0))] }
}

/// The event to send once a user changed their profile or picture: the
/// sessions watching that user, and the user's own, hear of it.
pub fn profile_event(user: UserLoggedIn) -> (r: SessionEvent)
    ensures
        r == (SessionEvent::UserUpdated { user: user.user() }),
{
    SessionEvent::UserUpdated { user: user.id() }
}

/// The endpoints of the users module.
pub open spec fn user_routes_spec() -> Seq<Endpoint> {
    seq![
        endpoint(Method::Post, "/create_user"),
        endpoint(Method::Get, "/who_am_i"),
        endpoint(Method::Delete, "/delete_account"),
        endpoint(Method::Post, "/update_user"),
        endpoint(Method::Get, "/get_username/<user_id>"),
        endpoint(Method::Get, "/get_user/<user_id>"),
        endpoint(Method::Post, "/update_user_pfp/<pfp_id>"),
    ]
}

/// The endpoints this module mounts.
pub fn routes() -> (r: Vec<Endpoint>)
    ensures
        r@ == user_routes_spec(),
{
    vec![
        route(Method::Post, "/create_user"),
        route(Method::Get, "/who_am_i"),
        route(Method::Delete, "/delete_account"),
        route(Method::Post, "/update_user"),
        route(Method::Get, "/get_username/<user_id>"),
        route(Method::Get, "/get_user/<user_id>"),
        route(Method::Post, "/update_user_pfp/<pfp_id>"),
    ]
}

/// The users module mounts, in order: account creation (POST), who-am-I (GET), account deletion (DELETE), profile update (POST), reading a user's name and public profile (GET), and setting the profile picture (POST).
pub proof fn law_user_endpoints()
    ensures
        user_routes_spec().len() == 7,
        user_routes_spec()[0] == (Endpoint { method: Method::Post, path: "/create_user", rank: None }),
        user_routes_spec()[1] == (Endpoint { method: Method::Get, path: "/who_am_i", rank: None }),
        user_routes_spec()[2] == (Endpoint { method: Method::Delete, path: "/delete_account", rank: None }),
        user_routes_spec()[3] == (Endpoint { method: Method::Post, path: "/update_user", rank: None }),
        user_routes_spec()[4] == (Endpoint { method: Method::Get, path: "/get_username/<user_id>", rank: None }),
        user_routes_spec()[5] == (Endpoint { method: Method::Get, path: "/get_user/<user_id>", rank: None }),
        user_routes_spec()[6] == (Endpoint { method: Method::Post, path: "/update_user_pfp/<pfp_id>", rank: None }),
{
}

/// A user with a username is shown by it; a user without one, by the phone
/// number.
pub proof fn law_shown_name_prefers_username(username: Seq<char>, phone_number: Seq<char>)
    ensures
        shown_name(Some(username), phone_number) == username,
        shown_name(None, phone_number) == phone_number,
{
}

} // verus!
