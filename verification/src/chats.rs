//! Chats: direct messages, groups and channels.

use vstd::prelude::*;
use crate::db::{opt_text, opt_text_value, Statement, Value};
use crate::ids::UserId;
use crate::routing::{endpoint, route, Endpoint, Method};

verus! {

/// Identifies a chat.
#[derive(Clone, Copy, Debug, PartialEq, Eq, Structural, Hash, PartialOrd, Ord)]
pub struct ChatId {
    pub chat_id: i64,
}

/// A chat row as its members list it.
#[derive(Clone, Debug)]
pub struct Chat {
    pub chat_id: i64,
    pub owner: i64,
    pub seconary: Option<i64>,
    pub send_priv: u8,
    pub tracks_views: bool,
    /// The most members the chat admits; none for a channel, which has no
    /// maximum.
    pub max_members: Option<u64>,
    pub name: Option<String>,
}

/// A member of a chat and the privilege the member holds there.
#[derive(Clone, Copy, Debug, PartialEq, Eq, Structural)]
pub struct ChatMember {
    pub user_id: i64,
    pub privilage: u8,
}

/// Where a join link leads: back home once joined, or to a refusal.
#[derive(Clone, Copy, Debug, PartialEq, Eq, Structural)]
pub enum JoinLink {
    Home,
    Refused,
}

/// A join through a link took effect when it added exactly one membership.
pub fn join_link(affected: usize) -> (r: JoinLink)
    ensures
        r == if affected == 1 {
            JoinLink::Home
        } else {
            JoinLink::Refused
        },
{
    if affected == 1 {
        JoinLink::Home
    } else {
        JoinLink::Refused
    }
}

/// Creates the direct-message chat of two users, unless they already have
/// one (then no row comes back).
pub const CREATE_DM_SQL: &'static str = "
            INSERT INTO chats
                (primary_owner, secondary_owner, sending_privilage, track_views, max_members)
            SELECT
                ?1, ?2, 0, FALSE, 2
            WHERE NOT EXISTS 
                (SELECT 1 FROM chats WHERE (primary_owner=?1 AND secondary_owner=?2) OR (primary_owner=?2 AND secondary_owner=?1))
            RETURNING chat_id";

/// Makes a user an owner-privileged member of a new chat.
pub const ADD_OWNER_SQL: &'static str = "
            INSERT INTO chat_members
                (chat_id, member_id, privilage)
            VALUES
                (?1, ?2, 255)";

/// Creates a group of up to two thousand members, unless its creator is
/// already in a hundred groups and channels.
pub const CREATE_GROUP_SQL: &'static str = "
            INSERT INTO chats
                (primary_owner, sending_privilage, track_views, max_members, chat_name)
            SELECT
                ?1, 0, FALSE, 2000, ?2
            WHERE 100>(
                SELECT COUNT(*) FROM 
                    (SELECT chat_id FROM chats WHERE secondary_owner IS NULL) t1
                LEFT JOIN
                    chat_members
                ON (t1.chat_id=chat_members.chat_id)
                WHERE member_id=?1
            )
            RETURNING chat_id";

/// Creates a channel, where only privileged members post and views are
/// counted and members are not limited in number (no maximum is stored),
/// unless its creator is already in a hundred groups and channels.
pub const CREATE_CHANNEL_SQL: &'static str = "
            INSERT INTO chats
                (primary_owner, sending_privilage, track_views, max_members, chat_name)
            SELECT
                ?1, 128, TRUE, NULL, ?2
            WHERE 100>(
                SELECT COUNT(*) FROM 
                    (SELECT chat_id FROM chats WHERE secondary_owner IS NULL) t1
                LEFT JOIN
                    chat_members
                ON (t1.chat_id=chat_members.chat_id)
                WHERE member_id=?1
            )
            RETURNING chat_id";

/// Adds a user to a chat as a plain member, when the chat exists and has
/// room: a chat with no maximum (a channel) always has room.
pub const JOIN_CHAT_SQL: &'static str = "
            INSERT INTO chat_members
                (chat_id, member_id, privilage)
            SELECT
                ?1, ?2, 0
            WHERE 
            100>(
                SELECT COUNT(*) FROM 
                    (SELECT chat_id FROM chats WHERE secondary_owner IS NULL) t1
                LEFT JOIN
                    chat_members
                ON (t1.chat_id=chat_members.chat_id)
                WHERE member_id=?1
            ) AND
            EXISTS (
                SELECT 1 FROM chats WHERE chat_id=?1 AND (
                    max_members IS NULL
                    OR
                    max_members > (SELECT COUNT(*) FROM chat_members WHERE chat_id=?1)
                )
            )
            ";

/// Removes a member from a chat, unless the member owns it.
pub const LEAVE_CHAT_SQL: &'static str = "
            DELETE FROM chat_members
                WHERE 
            chat_id=?1 AND member_id=?2 
            AND IFNULL(?2 NOT IN(
                SELECT 
                    primary_owner 
                FROM 
                    chats 
                WHERE 
                    chats.chat_id=?1
            ), TRUE)
            AND IFNULL(?2 NOT IN(
                SELECT 
                    secondary_owner 
                FROM 
                    chats 
                WHERE 
                    chats.chat_id=?1
            ), TRUE)";

/// Deletes a chat on behalf of one of its owners.
pub const DELETE_CHAT_SQL: &'static str = "
            DELETE FROM chats
                WHERE
                chat_id = ?2 AND (primary_owner=?1 OR IFNULL(secondary_owner=?1, FALSE))
            ";

/// Changes a member's privilege on behalf of a more privileged member.
pub const UPDATE_CHAT_MEMBER_PERM_SQL: &'static str = "
            UPDATE chat_members
                SET privilage=?3
            WHERE
                chat_id=?1 AND member_id=?2 
                AND ?3<(SELECT SUM(chat_members) FROM chat_members WHERE chat_id=?1 AND member_id=?4)
                AND privilage<(SELECT SUM(chat_members) FROM chat_members WHERE chat_id=?1 AND member_id=?4)
            ";

/// Lists the chats of a member.
pub const LIST_CHATS_SQL: &'static str = "
            SELECT chats.*
            FROM chats
            INNER JOIN chat_members ON chats.chat_id=chat_members.chat_id
            AND chat_members.member_id=?1
            ";

/// Lists the members of a chat, most privileged first, for a member.
pub const LIST_CHAT_MEMBERS_SQL: &'static str = "
            SELECT member_id, privilage
            FROM chat_members
            WHERE ?1=(SELECT member_id FROM chat_members WHERE chat_id=?2 AND member_id=?1)
                    AND chat_id=?2
                    ORDER BY privilage DESC
            ";

/// Turns a member's notifications on or off.
pub const UPDATE_CHAT_NOTIFICATIONS_SQL: &'static str = "
                UPDATE chat_members
                SET wants_notifications=?3
                WHERE chat_id=?2 AND member_id=?1
            ";

/// Records when a member last read a chat.
pub const MARK_CHAT_READ_SQL: &'static str = "
                UPDATE chat_members
                SET last_seen=?3
                WHERE chat_id=?2 AND member_id=?1
            ";

/// Finds the member row of a user in a chat.
pub const MEMBER_ROW_SQL: &'static str = "
            SELECT member_id FROM chat_members WHERE member_id=:user_id AND chat_id=:chat_id
        ";

/// The other user of a new direct-message chat.
#[derive(Clone, Copy, Debug, PartialEq, Eq, Structural)]
pub struct CreateDM {
    pub other: i64,
}

/// The optional name of a new group or channel.
#[derive(Clone, Debug)]
pub struct CreateGroup {
    pub name: Option<String>,
}

/// A new privilege for a member of a chat.
#[derive(Clone, Copy, Debug, PartialEq, Eq, Structural)]
pub struct UpdatePerm {
    pub chat_id: i64,
    pub user_id: i64,
    pub new_perm: u8,
}

/// Whether a member wants notifications from a chat.
#[derive(Clone, Copy, Debug, PartialEq, Eq, Structural)]
pub struct UpdateChatNotif {
    pub chat_id: i64,
    pub notifications: bool,
}

/// The statement that creates the direct-message chat of `user` and `dm.other`.
pub fn create_dm(user: UserId, dm: CreateDM) -> (r: Statement)
    ensures
        r.sql == CREATE_DM_SQL,
        r.params@ == seq![("?1", Value::Int(user.0)), ("?2", Value::Int(dm.other))],
{
    Statement { sql: CREATE_DM_SQL, params: vec![("?1", Value::Int(user.0)), ("?2", Value::Int(dm.other))] }
}

/// The statement that makes `member` an owner-privileged member of `chat_id`.
pub fn add_owner(chat_id: i64, member: i64) -> (r: Statement)
    ensures
        r.sql == ADD_OWNER_SQL,
        r.params@ == seq![("?1", Value::Int(chat_id)), ("?2", Value::Int(member))],
{
    Statement { sql: ADD_OWNER_SQL, params: vec![("?1", Value::Int(chat_id)), ("?2", Value::Int(member))] }
}

/// The memberships of a new direct-message chat: its creator, then the other
/// user, both with the owners' privilege.
pub fn dm_owners(chat_id: i64, user: UserId, dm: CreateDM) -> (r: Vec<Statement>)
    ensures
        r@.len() == 2,
        r@[0].sql == ADD_OWNER_SQL,
        r@[0].params@ == seq![("?1", Value::Int(chat_id)), ("?2", Value::Int(user.0))],
        r@[1].sql == ADD_OWNER_SQL,
        r@[1].params@ == seq![("?1", Value::Int(chat_id)), ("?2", Value::Int(dm.other))],
{
    let mut r: Vec<Statement> = Vec::new();
    r.push(add_owner(chat_id, user.0));
    r.push(add_owner(chat_id, dm.other));
    r
}

/// The statement that creates the group `group` of `user`.
pub fn create_group(user: UserId, group: CreateGroup) -> (r: Statement)
    ensures
        r.sql == CREATE_GROUP_SQL,
        r.params@ == seq![("?1", Value::Int(user.0)), ("?2", opt_text_value(group.name))],
{
    Statement { sql: CREATE_GROUP_SQL, params: vec![("?1", Value::Int(user.0)), ("?2", opt_text(group.name))] }
}

/// The statement that creates the channel `group` of `user`.
pub fn create_channel(user: UserId, group: CreateGroup) -> (r: Statement)
    ensures
        r.sql == CREATE_CHANNEL_SQL,
        r.params@ == seq![("?1", Value::Int(user.0)), ("?2", opt_text_value(group.name))],
{
    Statement {
        sql: CREATE_CHANNEL_SQL,
        params: vec![("?1", Value::Int(user.0)), ("?2", opt_text(group.name))],
    }
}

/// The statement that adds `user` to `chat`.
pub fn join_chat(user: UserId, chat: ChatId) -> (r: Statement)
    ensures
        r.sql == JOIN_CHAT_SQL,
        r.params@ == seq![("?1", Value::Int(chat.chat_id)), ("?2", Value::Int(user.0))],
{
    Statement { sql: JOIN_CHAT_SQL, params: vec![("?1", Value::Int(chat.chat_id)), ("?2", Value::Int(user.0))] }
}

/// The statement that takes `user` out of `chat`.
pub fn leave_chat(user: UserId, chat: ChatId) -> (r: Statement)
    ensures
        r.sql == LEAVE_CHAT_SQL,
        r.params@ == seq![("?1", Value::Int(chat.chat_id)), ("?2", Value::Int(user.0))],
{
    Statement { sql: LEAVE_CHAT_SQL, params: vec![("?1", Value::Int(chat.chat_id)), ("?2", Value::Int(user.0))] }
}

/// The statement that deletes `chat` on behalf of `user`.
pub fn delete_chat(user: UserId, chat: ChatId) -> (r: Statement)
    ensures
        r.sql == DELETE_CHAT_SQL,
        r.params@ == seq![("?1", Value::Int(user.0)), ("?2", Value::Int(chat.chat_id))],
{
    Statement { sql: DELETE_CHAT_SQL, params: vec![("?1", Value::Int(user.0)), ("?2", Value::Int(chat.chat_id))] }
}

/// The statement that changes a member's privilege on behalf of `user`.
pub fn update_chat_member_perm(user: UserId, updated: UpdatePerm) -> (r: Statement)
    ensures
        r.sql == UPDATE_CHAT_MEMBER_PERM_SQL,
        r.params@ == seq![
            ("?1", Value::Int(updated.chat_id)),
            ("?2", Value::Int(updated.user_id)),
            ("?3", Value::Int(updated.new_perm as i64)),
            ("?4", Value::Int(user.0)),
        ],
{
    Statement {
        sql: UPDATE_CHAT_MEMBER_PERM_SQL,
        params: vec![
            ("?1", Value::Int(updated.chat_id)),
            ("?2", Value::Int(updated.user_id)),
            ("?3", Value::Int(updated.new_perm as i64)),
            ("?4", Value::Int(user.0)),
        ],
    }
}

/// The statement that lists the chats of `user`.
pub fn list_chats(user: UserId) -> (r: Statement)
    ensures
        r.sql == LIST_CHATS_SQL,
        r.params@ == seq![("?1", Value::Int(user.0))],
{
    Statement { sql: LIST_CHATS_SQL, params: vec![("?1", Value::Int(user.0))] }
}

/// The statement that lists the members of `chat` for `user`.
pub fn list_chat_members(user: UserId, chat: ChatId) -> (r: Statement)
    ensures
        r.sql == LIST_CHAT_MEMBERS_SQL,
        r.params@ == seq![("?1", Value::Int(user.0)), ("?2", Value::Int(chat.chat_id))],
{
    Statement {
        sql: LIST_CHAT_MEMBERS_SQL,
        params: vec![("?1", Value::Int(user.0)), ("?2", Value::Int(chat.chat_id))],
    }
}

/// The statement that turns the notifications of `user` on or off.
pub fn update_chat_notifications(user: UserId, update: UpdateChatNotif) -> (r: Statement)
    ensures
        r.sql == UPDATE_CHAT_NOTIFICATIONS_SQL,
        r.params@ == seq![
            ("?1", Value::Int(user.0)),
            ("?2", Value::Int(update.chat_id)),
            ("?3", Value::Bool(update.notifications)),
        ],
{
    Statement {
        sql: UPDATE_CHAT_NOTIFICATIONS_SQL,
        params: vec![
            ("?1", Value::Int(user.0)),
            ("?2", Value::Int(update.chat_id)),
            ("?3", Value::Bool(update.notifications)),
        ],
    }
}

/// The statement that records that `user` read `chat` at `now` (milliseconds
/// since the epoch).
pub fn mark_chat_read(user: UserId, chat: ChatId, now: i64) -> (r: Statement)
    ensures
        r.sql == MARK_CHAT_READ_SQL,
        r.params@ == seq![
            ("?1", Value::Int(user.0)),
            ("?2", Value::Int(chat.chat_id)),
            ("?3", Value::Int(now)),
        ],
{
    Statement {
        sql: MARK_CHAT_READ_SQL,
        params: vec![
            ("?1", Value::Int(user.0)),
            ("?2", Value::Int(chat.chat_id)),
            ("?3", Value::Int(now)),
        ],
    }
}

/// The statement that finds the member row of `user` in `chat`.
pub fn member_row(user: UserId, chat: ChatId) -> (r: Statement)
    ensures
        r.sql == MEMBER_ROW_SQL,
        r.params@ == seq![(":user_id", Value::Int(user.0)), (":chat_id", Value::Int(chat.chat_id))],
{
    Statement {
        sql: MEMBER_ROW_SQL,
        params: vec![(":user_id", Value::Int(user.0)), (":chat_id", Value::Int(chat.chat_id))],
    }
}

/// The endpoints that a join link reaches, logged in or not.
pub open spec fn user_routes_spec() -> Seq<Endpoint> {
    seq![
        endpoint(Method::Get, "/join_chat/<chat_id>"),
        Endpoint { method: Method::Get, path: "/join_chat/<_chat_id>", rank: Some(2) },
    ]
}

/// The endpoints that a join link reaches: the logged-in one first, then the
/// one of lower rank for visitors who are not logged in.
pub fn user_routes() -> (r: Vec<Endpoint>)
    ensures
        r@ == user_routes_spec(),
{
    vec![
        route(Method::Get, "/join_chat/<chat_id>"),
        Endpoint { method: Method::Get, path: "/join_chat/<_chat_id>", rank: Some(2) },
    ]
}

/// The endpoints of the chats module.
pub open spec fn chat_routes_spec() -> Seq<Endpoint> {
    seq![
        endpoint(Method::Post, "/create_dm"),
        endpoint(Method::Post, "/create_channel"),
        endpoint(Method::Post, "/create_group"),
        endpoint(Method::Post, "/join_chat"),
        endpoint(Method::Delete, "/delete_chat"),
        endpoint(Method::Post, "/leave_chat"),
        endpoint(Method::Delete, "/update_chat_member_perm"),
        endpoint(Method::Get, "/list_chats"),
        endpoint(Method::Post, "/list_chat_members"),
        endpoint(Method::Post, "/update_chat_notifications"),
        endpoint(Method::Post, "/mark_chat_read"),
    ]
}

/// The endpoints this module mounts.
pub fn routes() -> (r: Vec<Endpoint>)
    ensures
        r@ == chat_routes_spec(),
{
    vec![
        route(Method::Post, "/create_dm"),
        route(Method::Post, "/create_channel"),
        route(Method::Post, "/create_group"),
        route(Method::Post, "/join_chat"),
        route(Method::Delete, "/delete_chat"),
        route(Method::Post, "/leave_chat"),
        route(Method::Delete, "/update_chat_member_perm"),
        route(Method::Get, "/list_chats"),
        route(Method::Post, "/list_chat_members"),
        route(Method::Post, "/update_chat_notifications"),
        route(Method::Post, "/mark_chat_read"),
    ]
}

/// The chats module mounts, in order: creating a DM, a channel and a group,
/// and joining (POST); deleting a chat (DELETE); leaving (POST); changing a
/// member's privilege (DELETE); listing chats (GET); then listing members,
/// notification settings and read marks (POST).
pub proof fn law_chat_endpoints()
    ensures
        chat_routes_spec().len() == 11,
        chat_routes_spec()[0] == (Endpoint { method: Method::Post, path: "/create_dm", rank: None }),
        chat_routes_spec()[1] == (Endpoint { method: Method::Post, path: "/create_channel", rank: None }),
        chat_routes_spec()[2] == (Endpoint { method: Method::Post, path: "/create_group", rank: None }),
        chat_routes_spec()[3] == (Endpoint { method: Method::Post, path: "/join_chat", rank: None }),
        chat_routes_spec()[4] == (Endpoint { method: Method::Delete, path: "/delete_chat", rank: None }),
        chat_routes_spec()[5] == (Endpoint { method: Method::Post, path: "/leave_chat", rank: None }),
        chat_routes_spec()[6] == (Endpoint { method: Method::Delete, path: "/update_chat_member_perm", rank: None }),
        chat_routes_spec()[7] == (Endpoint { method: Method::Get, path: "/list_chats", rank: None }),
        chat_routes_spec()[8] == (Endpoint { method: Method::Post, path: "/list_chat_members", rank: None }),
        chat_routes_spec()[9] == (Endpoint { method: Method::Post, path: "/update_chat_notifications", rank: None }),
        chat_routes_spec()[10] == (Endpoint { method: Method::Post, path: "/mark_chat_read", rank: None }),
{
}

/// A join link is served by two endpoints on the same path: the logged-in
/// one first, at the default rank, then the one for visitors, at rank 2.
pub proof fn law_join_link_endpoints()
    ensures
        user_routes_spec().len() == 2,
        user_routes_spec()[0] == (Endpoint { method: Method::Get, path: "/join_chat/<chat_id>", rank: None }),
        user_routes_spec()[1] == (Endpoint { method: Method::Get, path: "/join_chat/<_chat_id>", rank: Some(2) }),
{
}

} // verus!
