use chat_server::chats::{self, ChatId, CreateDM, CreateGroup};
use chat_server::contacts::{self, ContactId};
use chat_server::db::Value;
use chat_server::files;
use chat_server::ids::{FileId, MessageId, UserId};
use chat_server::messages::{self, GetMessages, SendMessage};
use chat_server::sessions::{self, LoginRequest};
use chat_server::users::{self, CreateUser};

#[test]
fn login_binds_credentials() {
    let s = sessions::login_check(LoginRequest { email: "ivy@gmail.com".into(), password: "123".into() });
    assert_eq!(s.sql, sessions::LOGIN_SQL);
    assert_eq!(
        s.params,
        vec![(":email", Value::Text("ivy@gmail.com".into())), (":password", Value::Text("123".into()))]
    );
}

#[test]
fn new_user_binds_in_order() {
    let s = users::new_user(CreateUser {
        phone_number: "1231".into(),
        name: "ivy".into(),
        email: "ivy@gmail.com".into(),
        location: "ontario".into(),
        username: "ivytime".into(),
        password: "123".into(),
    });
    assert_eq!(s.sql, users::NEW_USER_SQL);
    assert_eq!(s.params.len(), 6);
    assert_eq!(s.params[0], ("?1", Value::Text("1231".into())));
    assert_eq!(s.params[5], ("?6", Value::Text("123".into())));
}

#[test]
fn dm_owners_are_both_users() {
    let s = chats::create_dm(UserId(1), CreateDM { other: 2 });
    assert_eq!(s.params, vec![("?1", Value::Int(1)), ("?2", Value::Int(2))]);
    let owners = chats::dm_owners(9, UserId(1), CreateDM { other: 2 });
    assert_eq!(owners.len(), 2);
    assert_eq!(owners[0].sql, chats::ADD_OWNER_SQL);
    assert_eq!(owners[0].params, vec![("?1", Value::Int(9)), ("?2", Value::Int(1))]);
    assert_eq!(owners[1].params, vec![("?1", Value::Int(9)), ("?2", Value::Int(2))]);
}

#[test]
fn unnamed_group_binds_null() {
    let s = chats::create_group(UserId(1), CreateGroup { name: None });
    assert_eq!(s.params[1], ("?2", Value::Null));
    let s = chats::create_channel(UserId(1), CreateGroup { name: Some("news".into()) });
    assert_eq!(s.sql, chats::CREATE_CHANNEL_SQL);
    assert!(chats::CREATE_CHANNEL_SQL.contains("?1, 128, TRUE, NULL, ?2"));
    assert!(chats::JOIN_CHAT_SQL.contains("max_members IS NULL"));
    assert_eq!(s.params[1], ("?2", Value::Text("news".into())));
}

#[test]
fn chat_statements_bind_chat_and_user() {
    let chat = ChatId { chat_id: 3 };
    assert_eq!(chats::join_chat(UserId(2), chat).params, vec![("?1", Value::Int(3)), ("?2", Value::Int(2))]);
    assert_eq!(chats::delete_chat(UserId(2), chat).params, vec![("?1", Value::Int(2)), ("?2", Value::Int(3))]);
    assert_eq!(chats::mark_chat_read(UserId(2), chat, 77).params[2], ("?3", Value::Int(77)));
    assert_eq!(
        chats::member_row(UserId(2), chat).params,
        vec![(":user_id", Value::Int(2)), (":chat_id", Value::Int(3))]
    );
}

#[test]
fn message_statements() {
    let s = messages::send_message(
        UserId(1),
        SendMessage { message: "hey!".into(), reply: Some(MessageId(4)), attachment: None, chat_id: ChatId { chat_id: 2 } },
        1714528560684,
    );
    assert_eq!(s.sql, messages::SEND_MESSAGE_SQL);
    assert_eq!(s.params[3], (":attachment", Value::Null));
    assert_eq!(s.params[4], (":posted", Value::Int(1714528560684)));
    assert_eq!(s.params[5], (":reply_to", Value::Int(4)));
    let s = messages::get_messages(UserId(1), ChatId { chat_id: 2 }, GetMessages { previous: None, limit: None });
    assert_eq!(s.params[0], (":limit", Value::Size(50)));
    assert_eq!(s.params[1], (":offset", Value::Size(0)));
    let s = messages::set_message_pinned(UserId(1), MessageId(4), true);
    assert_eq!(s.params[2], ("?3", Value::Bool(true)));
}

#[test]
fn contact_and_file_statements() {
    let s = contacts::add_contact(UserId(1), ContactId { contact_id: 2 });
    assert_eq!(s.params, vec![(":user_id", Value::Int(1)), (":contact_id", Value::Int(2))]);
    let s = contacts::find_user_phone("3212".into());
    assert_eq!(s.sql, contacts::FIND_USER_PHONE_SQL);
    let s = files::upload("testfile".into(), b"image data".to_vec());
    assert_eq!(s.params[1], (":data", Value::Blob(b"image data".to_vec())));
    assert_eq!(files::attachment(FileId(5)).params, vec![(":id", Value::Int(5))]);
}

#[test]
fn availability_statements() {
    assert_eq!(users::set_availability(UserId(1), true).sql, users::MARK_AVAILABLE_SQL);
    assert_eq!(users::set_availability(UserId(1), false).sql, users::MARK_UNAVAILABLE_SQL);
}
