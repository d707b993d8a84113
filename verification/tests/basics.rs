use chat_server::chats::{join_link, ChatId, JoinLink};
use chat_server::ids::MessageId;
use chat_server::messages::{message_event, MessageChange};
use chat_server::sessions::SessionEvent;
use chat_server::contacts::Contact;
use chat_server::events::{chat_stream_opens, chat_stream_step, user_stream_opens, ChatEvent, EventThing};
use chat_server::ids::UserId;
use chat_server::messages::{GetMessages, DEFAULT_PAGE_LIMIT};
use chat_server::outcome::{
    chat_departure, creation, lookup, owner_change, removal, single_row_change, DbFailure, Status,
};
use chat_server::users::{
    display_name, joined_names, user_cookie_value, user_from_cookie, SafeUser,
};

#[test]
fn single_row_change_accepts_one_row() {
    assert_eq!(single_row_change(1), Status::Accepted);
    assert_eq!(single_row_change(0), Status::NotAcceptable);
    assert_eq!(single_row_change(2), Status::NotAcceptable);
}

#[test]
fn removal_statuses() {
    assert_eq!(removal(0), Status::InternalServerError);
    assert_eq!(removal(1), Status::Accepted);
    assert_eq!(removal(3), Status::BadRequest);
}

#[test]
fn owner_and_departure_statuses() {
    assert_eq!(owner_change(1), Status::Accepted);
    assert_eq!(owner_change(0), Status::Unauthorized);
    assert_eq!(chat_departure(1), Status::Okay);
    assert_eq!(chat_departure(0), Status::NotAcceptable);
}

#[test]
fn status_codes() {
    assert_eq!(Status::Okay.code(), 200);
    assert_eq!(Status::Accepted.code(), 202);
    assert_eq!(Status::BadRequest.code(), 400);
    assert_eq!(Status::Unauthorized.code(), 401);
    assert_eq!(Status::NotAcceptable.code(), 406);
    assert_eq!(Status::Conflict.code(), 409);
    assert_eq!(Status::InternalServerError.code(), 500);
}

#[test]
fn lookups_and_creations() {
    assert_eq!(lookup(Ok(3)), Ok(Some(3)));
    assert_eq!(lookup(Err(DbFailure::NoRows)), Ok(None));
    assert_eq!(lookup(Err(DbFailure::Other)), Err(DbFailure::Other));
    assert_eq!(creation(Ok(4)), Ok(Ok(4)));
    assert_eq!(creation(Err(DbFailure::NoRows)), Ok(Err(Status::Conflict)));
    assert_eq!(creation(Err(DbFailure::Other)), Err(DbFailure::Other));
}

#[test]
fn join_link_outcomes() {
    assert_eq!(join_link(1), JoinLink::Home);
    assert_eq!(join_link(0), JoinLink::Refused);
}

#[test]
fn user_cookies_round_trip() {
    for id in [0i64, 7, -1, 10, 99, i64::MAX, i64::MIN] {
        let v = user_cookie_value(UserId(id));
        assert_eq!(v, id.to_string());
        assert_eq!(user_from_cookie(&v).unwrap().id(), UserId(id));
    }
    assert_eq!(user_from_cookie("+12").unwrap().id(), UserId(12));
    assert_eq!(user_from_cookie("007").unwrap().id(), UserId(7));
    assert!(user_from_cookie("").is_none());
    assert!(user_from_cookie("-").is_none());
    assert!(user_from_cookie(" 1").is_none());
    assert!(user_from_cookie("9223372036854775808").is_none());
    assert_eq!(user_from_cookie("-9223372036854775808").unwrap().id(), UserId(i64::MIN));
}

#[test]
fn display_names_prefer_username() {
    assert_eq!(display_name(Some("ivy".to_string()), "1231".to_string()), "ivy");
    assert_eq!(display_name(None, "1231".to_string()), "1231");
    let u = SafeUser::from_row(UserId(2), None, "3212".to_string(), "hi".to_string(), Some(4));
    assert_eq!(u.display_name, "3212");
    assert_eq!(u.user_id, UserId(2));
    let c = Contact::from_row(2, Some("heygrey".to_string()), "3212".to_string(), None, None);
    assert_eq!(c.display_name, "heygrey");
}

#[test]
fn joined_names_concatenate() {
    assert_eq!(joined_names(&vec![]), "");
    assert_eq!(joined_names(&vec!["ivy".to_string(), "time".to_string()]), "ivytime");
}

#[test]
fn message_pages() {
    let p = GetMessages { previous: None, limit: None }.page();
    assert_eq!((p.limit, p.offset), (DEFAULT_PAGE_LIMIT, 0));
    assert_eq!(DEFAULT_PAGE_LIMIT, 50);
    let p = GetMessages { previous: Some(100), limit: Some(10) }.page();
    assert_eq!((p.limit, p.offset), (10, 100));
}

#[test]
fn chat_stream_ends_on_own_departure() {
    assert_eq!(chat_stream_step(Some(ChatEvent::UserLeft(3)), 3), None);
    assert_eq!(chat_stream_step(Some(ChatEvent::UserLeft(4)), 3), Some(ChatEvent::UserLeft(4)));
    assert_eq!(chat_stream_step(Some(ChatEvent::NewMessage(3)), 3), Some(ChatEvent::NewMessage(3)));
    assert_eq!(chat_stream_step(None, 3), None);
}

#[test]
fn user_stream_opens_once_marked_online() {
    assert!(user_stream_opens(Some(1)));
    assert!(!user_stream_opens(Some(0)));
    assert!(!user_stream_opens(Some(2)));
    assert!(!user_stream_opens(None));
}

#[test]
fn chat_stream_opens_for_members_only() {
    assert!(chat_stream_opens(Ok(7)));
    assert!(!chat_stream_opens(Err(DbFailure::NoRows)));
    assert!(!chat_stream_opens(Err(DbFailure::Other)));
}

#[test]
fn event_channels_drop_closed_listeners() {
    let mut e = EventThing::default();
    assert!(e.event(5, &vec![]).is_empty());
    e.listen(5, 1);
    e.listen(5, 2);
    e.listen(5, 3);
    e.listen(6, 4);
    assert_eq!(e.listeners(5), vec![1, 2, 3]);
    assert_eq!(e.event(5, &vec![]), vec![1, 2, 3]);
    assert_eq!(e.event(5, &vec![2, 9]), vec![1, 3]);
    assert_eq!(e.listeners(5), vec![1, 3]);
    assert_eq!(e.event(5, &vec![1, 3]), Vec::<u64>::new());
    assert!(e.listeners(5).is_empty());
    assert_eq!(e.listeners(6), vec![4]);
    e.listen(5, 7);
    assert_eq!(e.event(5, &vec![]), vec![7]);
}


#[test]
fn message_and_profile_events() {
    let chat = ChatId { chat_id: 2 };
    assert_eq!(
        message_event(MessageChange::Posted, 2, MessageId(5)),
        SessionEvent::NewMessage { chat, message: MessageId(5) }
    );
    assert_eq!(
        message_event(MessageChange::Edited, 2, MessageId(5)),
        SessionEvent::MessageEdited { chat, message: MessageId(5) }
    );
    assert_eq!(
        message_event(MessageChange::Deleted, 2, MessageId(5)),
        SessionEvent::MessageDeleted { chat, message: MessageId(5) }
    );
    let user = user_from_cookie("7").unwrap();
    assert_eq!(chat_server::users::profile_event(user), SessionEvent::UserUpdated { user: UserId(7) });
}

#[test]
fn upload_limit_is_ten_megabytes() {
    assert_eq!(chat_server::files::UPLOAD_LIMIT, 10_000_000);
}
