//! Messages of a chat.

use vstd::prelude::*;
use crate::chats::ChatId;
use crate::db::{opt_int, opt_int_value, Statement, Value};
use crate::ids::{MessageId, UserId};
use crate::sessions::SessionEvent;
use crate::routing::{endpoint, route, Endpoint, Method};

verus! {

/// A message as members read it.
#[derive(Clone, Debug)]
pub struct Message {
    pub message_id: i64,
    pub message: String,
    pub reply_to: Option<i64>,
    pub posted: i64,
    pub last_edited: Option<i64>,
    pub sender_id: Option<UserId>,
    pub views: Option<i64>,
    pub pinned: bool,
}

/// Which page of a chat's history to read: how many newer messages to skip,
/// and how many to return.
#[derive(Clone, Copy, Debug, PartialEq, Eq, Structural)]
pub struct GetMessages {
    pub previous: Option<usize>,
    pub limit: Option<usize>,
}

/// The number of messages a page holds when the request names none.
pub const DEFAULT_PAGE_LIMIT: usize = 50;

/// The `LIMIT` and `OFFSET` of a page, newest first.
#[derive(Clone, Copy, Debug, PartialEq, Eq, Structural)]
pub struct Page {
    pub limit: usize,
    pub offset: usize,
}

impl GetMessages {
    /// The page requested: fifty messages unless a limit is given, starting
    /// after the newest `previous` ones (none unless given).
    pub open spec fn page_spec(self) -> Page {
        Page {
            limit: match self.limit {
                Some(l) => l,
                None => DEFAULT_PAGE_LIMIT,
            },
            offset: match self.previous {
                Some(p) => p,
                None => 0usize,
            },
        }
    }

    /// The page requested: fifty messages unless a limit is given, starting
    /// after the newest `previous` ones (none unless given).
    pub fn page(&self) -> (r: Page)
        ensures
            r == self.page_spec(),
            self.limit matches Some(l) ==> r.limit == l,
            self.limit is None ==> r.limit == 50,
            self.previous matches Some(p) ==> r.offset == p,
            self.previous is None ==> r.offset == 0,
    {
        Page {
            limit: match self.limit {
                Some(l) => l,
                None => DEFAULT_PAGE_LIMIT,
            },
            offset: match self.previous {
                Some(p) => p,
                None => 0,
            },
        }
    }
}

/// Posts a message, when the sender is a member privileged enough to post in
/// the chat and a message replied to is in the same chat.
pub const SEND_MESSAGE_SQL: &'static str = "
                INSERT INTO messages 
                    (sender_id, chat_id, message, attachment, posted, reply_to) 
                SELECT 
                    :user_id, :chat_id, :message, :attachment, :posted, :reply_to
                WHERE 1=(
                    SELECT COUNT(*) FROM chat_members WHERE chat_id=:chat_id AND member_id=:user_id 
                    AND 1=(SELECT COUNT(*) FROM chats WHERE chat_id=:chat_id AND sending_privilage<=privilage) 
                ) AND IFNULL(:chat_id=(
                    SELECT chat_id FROM messages WHERE reply_to=:reply_to
                ), TRUE)
                RETURNING message_id";

/// Deletes a message on behalf of its sender or of a more privileged member.
pub const DELETE_MESSAGE_SQL: &'static str = "
        DELETE FROM messages 
        WHERE message_id=:message_id AND 
        (
            sender_id=:user_id
            OR 
            (SELECT privilage FROM chat_members WHERE member_id=:user_id)
            >
            (SELECT privilage FROM chat_members WHERE member_id=message_id)
        )
        RETURNING chat_id";

/// Edits a message on behalf of its sender.
pub const UPDATE_MESSAGE_SQL: &'static str = "
            UPDATE messages
            SET message = ?3, last_edited=?4
            WHERE message_id=?1 AND sender_id=?2
            RETURNING chat_id";

/// Counts a view of a message in a chat that counts views, by a member.
pub const VIEW_MESSAGE_SQL: &'static str = "
                UPDATE messages
                SET views=IFNULL(views+1, 1)
                WHERE message_id=:message_id
                AND chat_id IN (SELECT chat_id FROM chat_members WHERE member_id=:user_id)
                AND TRUE=(SELECT track_views FROM chats WHERE messages.chat_id=chats.chat_id)
                RETURNING chat_id
            ";

/// Pins or unpins a message on behalf of a member allowed to post.
pub const SET_MESSAGE_PINNED_SQL: &'static str = "
                UPDATE messages
                SET pinned=?3
                WHERE message_id=?2 AND (
                    (SELECT privilage FROM chat_members WHERE chat_members.member_id=?1 AND chat_members.chat_id=messages.chat_id) 
                    >= 
                    (SELECT sending_privilage FROM chats WHERE chats.chat_id=messages.chat_id)
                )
                RETURNING chat_id
            ";

/// Reads a page of a chat's history, newest first, for a member.
pub const GET_MESSAGES_SQL: &'static str = "
        SELECT 
            message_id, message, reply_to, posted, last_edited, sender_id, views, pinned
        FROM 
            messages
        WHERE
            chat_id=:chat_id
            AND
            :user_id IN (SELECT member_id FROM chat_members WHERE chat_id=:chat_id)
        ORDER BY message_id DESC, posted DESC
        LIMIT :limit OFFSET :offset";

/// Reads one message for a member of its chat.
pub const GET_MESSAGE_SQL: &'static str = "
        SELECT 
            message_id, message, reply_to, posted, last_edited, sender_id, views, pinned
        FROM 
            messages
        WHERE
            message_id=:message_id
            AND
            :user_id IN (SELECT member_id FROM chat_members WHERE chat_members.chat_id=messages.chat_id)";

/// A message to post.
#[derive(Clone, Debug)]
pub struct SendMessage {
    pub message: String,
    pub reply: Option<MessageId>,
    pub attachment: Option<i64>,
    pub chat_id: ChatId,
}

/// The new text of a message.
#[derive(Clone, Debug)]
pub struct UpdateMessage {
    pub message: String,
}

/// The id bound for an optional message.
pub open spec fn opt_message(m: Option<MessageId>) -> Option<i64> {
    match m {
        Some(id) => Some(id.0),
        None => None,
    }
}

/// The statement that posts `message` from `user` at `posted` (milliseconds
/// since the epoch).
pub fn send_message(user: UserId, message: SendMessage, posted: i64) -> (r: Statement)
    ensures
        r.sql == SEND_MESSAGE_SQL,
        r.params@ == seq![
            (":chat_id", Value::Int(message.chat_id.chat_id)),
            (":user_id", Value::Int(user.0)),
            (":message", Value::Text(message.message)),
            (":attachment", opt_int_value(message.attachment)),
            (":posted", Value::Int(posted)),
            (":reply_to", opt_int_value(opt_message(message.reply))),
        ],
{
    let reply = match message.reply {
        Some(id) => Some(id.0),
        None => None,
    };
    Statement {
        sql: SEND_MESSAGE_SQL,
        params: vec![
            (":chat_id", Value::Int(message.chat_id.chat_id)),
            (":user_id", Value::Int(user.0)),
            (":message", Value::Text(message.message)),
            (":attachment", opt_int(message.attachment)),
            (":posted", Value::Int(posted)),
            (":reply_to", opt_int(reply)),
        ],
    }
}

/// The statement that deletes `message` on behalf of `user`.
pub fn delete_message(user: UserId, message: MessageId) -> (r: Statement)
    ensures
        r.sql == DELETE_MESSAGE_SQL,
        r.params@ == seq![(":message_id", Value::Int(message.0)), (":user_id", Value::Int(user.0))],
{
    Statement {
        sql: DELETE_MESSAGE_SQL,
        params: vec![(":message_id", Value::Int(message.0)), (":user_id", Value::Int(user.0))],
    }
}

/// The statement that gives `message` of `user` the text `content` at `now`.
pub fn update_message(user: UserId, message: MessageId, content: UpdateMessage, now: i64) -> (r:
    Statement)
    ensures
        r.sql == UPDATE_MESSAGE_SQL,
        r.params@ == seq![
            ("?1", Value::Int(message.0)),
            ("?2", Value::Int(user.0)),
            ("?3", Value::Text(content.message)),
            ("?4", Value::Int(now)),
        ],
{
    Statement {
        sql: UPDATE_MESSAGE_SQL,
        params: vec![
            ("?1", Value::Int(message.0)),
            ("?2", Value::Int(user.0)),
            ("?3", Value::Text(content.message)),
            ("?4", Value::Int(now)),
        ],
    }
}

/// The statement that counts a view of `message` by `user`.
pub fn view_message(user: UserId, message: MessageId) -> (r: Statement)
    ensures
        r.sql == VIEW_MESSAGE_SQL,
        r.params@ == seq![(":user_id", Value::Int(user.0)), (":message_id", Value::Int(message.0))],
{
    Statement {
        sql: VIEW_MESSAGE_SQL,
        params: vec![(":user_id", Value::Int(user.0)), (":message_id", Value::Int(message.0))],
    }
}

/// The statement that pins (or unpins) `message` on behalf of `user`.
pub fn set_message_pinned(user: UserId, message: MessageId, pinned: bool) -> (r: Statement)
    ensures
        r.sql == SET_MESSAGE_PINNED_SQL,
        r.params@ == seq![
            ("?1", Value::Int(user.0)),
            ("?2", Value::Int(message.0)),
            ("?3", Value::Bool(pinned)),
        ],
{
    Statement {
        sql: SET_MESSAGE_PINNED_SQL,
        params: vec![
            ("?1", Value::Int(user.0)),
            ("?2", Value::Int(message.0)),
            ("?3", Value::Bool(pinned)),
        ],
    }
}

/// The statement that reads the page `get` of `chat` for `user`.
pub fn get_messages(user: UserId, chat: ChatId, get: GetMessages) -> (r: Statement)
    ensures
        r.sql == GET_MESSAGES_SQL,
        r.params@ == seq![
            (":limit", Value::Size(get.page_spec().limit)),
            (":offset", Value::Size(get.page_spec().offset)),
            (":chat_id", Value::Int(chat.chat_id)),
            (":user_id", Value::Int(user.0)),
        ],
{
    let page = get.page();
    Statement {
        sql: GET_MESSAGES_SQL,
        params: vec![
            (":limit", Value::Size(page.limit)),
            (":offset", Value::Size(page.offset)),
            (":chat_id", Value::Int(chat.chat_id)),
            (":user_id", Value::Int(user.0)),
        ],
    }
}

/// The statement that reads `message` for `user`.
pub fn get_message(user: UserId, message: i64) -> (r: Statement)
    ensures
        r.sql == GET_MESSAGE_SQL,
        r.params@ == seq![(":message_id", Value::Int(message)), (":user_id", Value::Int(user.0))],
{
    Statement {
        sql: GET_MESSAGE_SQL,
        params: vec![(":message_id", Value::Int(message)), (":user_id", Value::Int(user.0))],
    }
}

/// What a successful message statement did to a message.
#[derive(Clone, Copy, Debug, PartialEq, Eq, Structural)]
pub enum MessageChange {
    /// `send_message` posted it.
    Posted,
    /// `update_message`, `view_message` or `set_message_pinned` changed it.
    Edited,
    /// `delete_message` removed it.
    Deleted,
}

/// The event that tells the watchers of a chat of a change to one of its
/// messages.
pub open spec fn message_event_spec(change: MessageChange, chat: ChatId, message: MessageId) -> SessionEvent {
    match change {
        MessageChange::Posted => SessionEvent::NewMessage { chat, message },
        MessageChange::Edited => SessionEvent::MessageEdited { chat, message },
        MessageChange::Deleted => SessionEvent::MessageDeleted { chat, message },
    }
}

/// The event to send once a message statement succeeded: `chat_id` is the
/// chat the statement returned (or the chat posted to), `message` the message
/// it touched.
pub fn message_event(change: MessageChange, chat_id: i64, message: MessageId) -> (r: SessionEvent)
    ensures
        r == message_event_spec(change, ChatId { chat_id }, message),
{
    let chat = ChatId { chat_id };
    match change {
        MessageChange::Posted => SessionEvent::NewMessage { chat, message },
        MessageChange::Edited => SessionEvent::MessageEdited { chat, message },
        MessageChange::Deleted => SessionEvent::MessageDeleted { chat, message },
    }
}

/// The endpoints of the messages module.
pub open spec fn message_routes_spec() -> Seq<Endpoint> {
    seq![
        endpoint(Method::Post, "/send_message"),
        endpoint(Method::Delete, "/delete_message/<message>"),
        endpoint(Method::Post, "/update_message/<message>"),
        endpoint(Method::Post, "/view_message/<message>"),
        endpoint(Method::Post, "/set_message_pinned/<message>"),
        endpoint(Method::Post, "/get_messages/<chat>"),
        endpoint(Method::Get, "/get_message/<message_id>"),
    ]
}

/// The endpoints this module mounts.
pub fn routes() -> (r: Vec<Endpoint>)
    ensures
        r@ == message_routes_spec(),
{
    vec![
        route(Method::Post, "/send_message"),
        route(Method::Delete, "/delete_message/<message>"),
        route(Method::Post, "/update_message/<message>"),
        route(Method::Post, "/view_message/<message>"),
        route(Method::Post, "/set_message_pinned/<message>"),
        route(Method::Post, "/get_messages/<chat>"),
        route(Method::Get, "/get_message/<message_id>"),
    ]
}

/// A page holds the number of messages the request asks for, fifty when it
/// names none, and skips the newest `previous` messages, none when it names
/// none.
pub proof fn law_page_follows_the_request(get: GetMessages)
    ensures
        get.limit matches Some(l) ==> get.page_spec().limit == l,
        get.limit is None ==> get.page_spec().limit == 50,
        get.previous matches Some(p) ==> get.page_spec().offset == p,
        get.previous is None ==> get.page_spec().offset == 0,
{
}

/// The messages module mounts, in order: sending a message (POST), deleting
/// one (DELETE), editing, viewing and pinning one (POST), reading a page of a
/// chat's history (POST, with the page request as its body) and reading one
/// message (GET).
pub proof fn law_message_endpoints()
    ensures
        message_routes_spec().len() == 7,
        message_routes_spec()[0] == (Endpoint { method: Method::Post, path: "/send_message", rank: None }),
        message_routes_spec()[1] == (Endpoint { method: Method::Delete, path: "/delete_message/<message>", rank: None }),
        message_routes_spec()[2] == (Endpoint { method: Method::Post, path: "/update_message/<message>", rank: None }),
        message_routes_spec()[3] == (Endpoint { method: Method::Post, path: "/view_message/<message>", rank: None }),
        message_routes_spec()[4] == (Endpoint { method: Method::Post, path: "/set_message_pinned/<message>", rank: None }),
        message_routes_spec()[5] == (Endpoint { method: Method::Post, path: "/get_messages/<chat>", rank: None }),
        message_routes_spec()[6] == (Endpoint { method: Method::Get, path: "/get_message/<message_id>", rank: None }),
{
}

/// A posted message is announced as new, an edited (viewed, pinned) one as
/// edited, a deleted one as deleted, each in the chat and for the message
/// given.
pub proof fn law_message_event_names_the_change(change: MessageChange, chat: ChatId, message: MessageId)
    ensures
        change == MessageChange::Posted ==> message_event_spec(change, chat, message) == (SessionEvent::NewMessage { chat, message }),
        change == MessageChange::Edited ==> message_event_spec(change, chat, message) == (SessionEvent::MessageEdited { chat, message }),
        change == MessageChange::Deleted ==> message_event_spec(change, chat, message) == (SessionEvent::MessageDeleted { chat, message }),
{
}

} // verus!
