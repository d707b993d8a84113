//! A user's contacts, and finding users by email, phone or username.

use vstd::prelude::*;
use crate::db::{Statement, Value};
use crate::ids::UserId;
use crate::routing::{endpoint, route, Endpoint, Method};
use crate::users::{display_name, opt_view, shown_name};

verus! {

/// One contact as its owner lists it.
#[derive(Clone, Debug)]
pub struct Contact {
    pub user_id: i64,
    pub display_name: String,
    pub bio: Option<String>,
    pub pfp_file_id: Option<i64>,
}

/// The user a contact request names.
#[derive(Clone, Copy, Debug, PartialEq, Eq, Structural)]
pub struct ContactId {
    pub contact_id: i64,
}

impl Contact {
    /// The contact entry of user `user_id`: shown by username where there is
    /// one, else by phone number.
    pub fn from_row(
        user_id: i64,
        username: Option<String>,
        phone_number: String,
        bio: Option<String>,
        pfp_file_id: Option<i64>,
    ) -> (r: Contact)
        ensures
            r.user_id == user_id,
            r.display_name@ == shown_name(opt_view(username), phone_number@),
            opt_view(r.bio) == opt_view(bio),
            r.pfp_file_id == pfp_file_id,
    {
        Contact { user_id, display_name: display_name(username, phone_number), bio, pfp_file_id }
    }
}

/// Lists the contacts of a user.
pub const GET_CONTACTS_SQL: &'static str = "
            SELECT 
                user.user_id, user.username user.phone_number user.bio, user.pfp_file_id 
            FROM 
                users
            INNER JOIN contacts ON contacts.contact_user_id = users.user_id
            WHERE user_id=:user_id
            ";

/// Adds a contact.
pub const ADD_CONTACT_SQL: &'static str = "
        INSERT INTO contacts
            (user_id, contact_user_id)
        VALUES
            (:user_id, :contact_id)";

/// Removes a contact.
pub const DELETE_CONTACT_SQL: &'static str = "
        DELETE FROM contacts
        WHERE
            user_id=:user_id AND contact_user_id=:contact_id
        ";

/// Finds a user by email.
pub const FIND_USER_EMAIL_SQL: &'static str = "
        SELECT user_id FROM users
        WHERE
            email=:email
        ";

/// Finds a user by phone number.
pub const FIND_USER_PHONE_SQL: &'static str = "
        SELECT user_id FROM users
        WHERE
            phone_number=:phone
        ";

/// Finds a user by username.
pub const FIND_USER_USERNAME_SQL: &'static str = "
        SELECT user_id FROM users
        WHERE
            username=:username
        ";

/// The statement that lists the contacts of `user`.
pub fn get_contacts(user: UserId) -> (r: Statement)
    ensures
        r.sql == GET_CONTACTS_SQL,
        r.params@ == seq![(":user_id", Value::Int(user.0))],
{
    Statement { sql: GET_CONTACTS_SQL, params: vec![(":user_id", Value::Int(user.0))] }
}

/// The statement that adds `contact` to the contacts of `user`.
pub fn add_contact(user: UserId, contact: ContactId) -> (r: Statement)
    ensures
        r.sql == ADD_CONTACT_SQL,
        r.params@ == seq![(":user_id", Value::Int(user.0)), (":contact_id", Value::Int(contact.contact_id))],
{
    Statement {
        sql: ADD_CONTACT_SQL,
        params: vec![(":user_id", Value::Int(user.0)), (":contact_id", Value::Int(contact.contact_id))],
    }
}

/// The statement that removes `contact` from the contacts of `user`.
pub fn delete_contact(user: UserId, contact: ContactId) -> (r: Statement)
    ensures
        r.sql == DELETE_CONTACT_SQL,
        r.params@ == seq![(":user_id", Value::Int(user.0)), (":contact_id", Value::Int(contact.contact_id))],
{
    Statement {
        sql: DELETE_CONTACT_SQL,
        params: vec![(":user_id", Value::Int(user.0)), (":contact_id", Value::Int(contact.contact_id))],
    }
}

/// The statement that finds the user with `email`.
pub fn find_user_email(email: String) -> (r: Statement)
    ensures
        r.sql == FIND_USER_EMAIL_SQL,
        r.params@ == seq![(":email", Value::Text(email))],
{
    Statement { sql: FIND_USER_EMAIL_SQL, params: vec![(":email", Value::Text(email))] }
}

/// The statement that finds the user with phone number `phone`.
pub fn find_user_phone(phone: String) -> (r: Statement)
    ensures
        r.sql == FIND_USER_PHONE_SQL,
        r.params@ == seq![(":phone", Value::Text(phone))],
{
    Statement { sql: FIND_USER_PHONE_SQL, params: vec![(":phone", Value::Text(phone))] }
}

/// The statement that finds the user with `username`.
pub fn find_user_username(username: String) -> (r: Statement)
    ensures
        r.sql == FIND_USER_USERNAME_SQL,
        r.params@ == seq![(":username", Value::Text(username))],
{
    Statement { sql: FIND_USER_USERNAME_SQL, params: vec![(":username", Value::Text(username))] }
}

/// The endpoints of the contacts module.
pub open spec fn contact_routes_spec() -> Seq<Endpoint> {
    seq![
        endpoint(Method::Get, "/get_contacts"),
        endpoint(Method::Get, "/add_contact"),
        endpoint(Method::Delete, "/delete_contact"),
        endpoint(Method::Post, "/find_user_email"),
        endpoint(Method::Post, "/find_user_username"),
        endpoint(Method::Post, "/find_user_phone"),
    ]
}

/// The endpoints this module mounts.
pub fn routes() -> (r: Vec<Endpoint>)
    ensures
        r@ == contact_routes_spec(),
{
    vec![
        route(Method::Get, "/get_contacts"),
        route(Method::Get, "/add_contact"),
        route(Method::Delete, "/delete_contact"),
        route(Method::Post, "/find_user_email"),
        route(Method::Post, "/find_user_username"),
        route(Method::Post, "/find_user_phone"),
    ]
}

/// The contacts module mounts, in order: listing and adding contacts (GET), removing one (DELETE), and finding a user by email, username or phone (POST).
pub proof fn law_contact_endpoints()
    ensures
        contact_routes_spec().len() == 6,
        contact_routes_spec()[0] == (Endpoint { method: Method::Get, path: "/get_contacts", rank: None }),
        contact_routes_spec()[1] == (Endpoint { method: Method::Get, path: "/add_contact", rank: None }),
        contact_routes_spec()[2] == (Endpoint { method: Method::Delete, path: "/delete_contact", rank: None }),
        contact_routes_spec()[3] == (Endpoint { method: Method::Post, path: "/find_user_email", rank: None }),
        contact_routes_spec()[4] == (Endpoint { method: Method::Post, path: "/find_user_username", rank: None }),
        contact_routes_spec()[5] == (Endpoint { method: Method::Post, path: "/find_user_phone", rank: None }),
{
}

} // verus!
