//! The `api` endpoint set: its user, chat and message endpoints, and the
//! table of all of them. The server does not mount this set and no handler
//! serves it; the tables are kept as the record of what it holds.

pub mod chats;
pub mod messages;
pub mod user;

use vstd::prelude::*;
use crate::routing::Endpoint;

verus! {

/// Every endpoint of this API: the user endpoints, then the message
/// endpoints, then the chat endpoints.
pub fn api_routes() -> (r: Vec<Endpoint>)
    ensures
        r@ == user::api_user_routes() + messages::api_message_routes() + chats::api_chat_routes(),
{
    let mut items: Vec<Endpoint> = Vec::new();
    let mut users = user::routes();
    let mut messages = messages::routes();
    let mut chats = chats::routes();
    items.append(&mut users);
    items.append(&mut messages);
    items.append(&mut chats);
    items
}

} // verus!
