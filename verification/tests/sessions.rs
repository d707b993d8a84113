use chat_server::chats::ChatId;
use chat_server::ids::{MessageId, UserId};
use chat_server::outcome::{DbFailure, Status};
use chat_server::sessions::{
    guard_from_cookies, session_cookie_value, session_from_cookie, ActiveSession, AuthResult,
    LoginOutcome, SessionEvent, SessionGuard, SessionId, SessionManagerInner,
};
use chat_server::users::user_from_cookie;

fn guard(session: u64, user: i64) -> SessionGuard {
    let login = user_from_cookie(&user.to_string()).unwrap();
    SessionGuard(SessionId(session), login)
}

fn sorted(mut v: Vec<u64>) -> Vec<u64> {
    v.sort();
    v
}

#[test]
fn new_active_session_has_stream() {
    let s = ActiveSession::new(guard(3, 9), 42);
    assert_eq!(s.stream_id(), 42);
}

#[test]
fn ids_are_handed_out_in_turn() {
    let mut m = SessionManagerInner::new();
    assert_eq!(m.next_session_id(), SessionId(0));
    assert_eq!(m.next_session_id(), SessionId(1));
    assert_eq!(m.next_stream_id(), 0);
    assert_eq!(m.next_stream_id(), 1);
    assert_eq!(m.next_session_id(), SessionId(2));
}

#[test]
fn begin_greets_the_user_and_listens_to_it() {
    let mut m = SessionManagerInner::default();
    let start = m.begin(guard(1, 7));
    assert_eq!(start.stream_id, 0);
    assert_eq!(start.greeting, SessionEvent::WhoAmI { user: UserId(7) });
    assert_eq!(m.event(SessionEvent::WhoAmI { user: UserId(7) }), vec![1]);
    assert_eq!(m.event(SessionEvent::UserDeleted { user: UserId(7) }), vec![1]);
    assert!(m.event(SessionEvent::WhoAmI { user: UserId(8) }).is_empty());
}

#[test]
fn chat_events_reach_chat_subscribers_only() {
    let mut m = SessionManagerInner::new();
    m.begin(guard(1, 7));
    m.begin(guard(2, 8));
    m.begin(guard(3, 9));
    m.subsribe_to_chat(guard(1, 7), ChatId { chat_id: 100 });
    m.subsribe_to_chat(guard(2, 8), ChatId { chat_id: 100 });
    m.subsribe_to_chat(guard(3, 9), ChatId { chat_id: 200 });
    let e = SessionEvent::NewMessage { chat: ChatId { chat_id: 100 }, message: MessageId(5) };
    assert_eq!(sorted(m.event(e)), vec![1, 2]);
    let e = SessionEvent::MessageEdited { chat: ChatId { chat_id: 200 }, message: MessageId(5) };
    assert_eq!(m.event(e), vec![3]);
}

#[test]
fn subscribing_to_a_chat_replaces_the_previous_one() {
    let mut m = SessionManagerInner::new();
    m.begin(guard(1, 7));
    m.subsribe_to_chat(guard(1, 7), ChatId { chat_id: 100 });
    m.subsribe_to_chat(guard(1, 7), ChatId { chat_id: 200 });
    let old = SessionEvent::MessageDeleted { chat: ChatId { chat_id: 100 }, message: MessageId(1) };
    let new = SessionEvent::MessageDeleted { chat: ChatId { chat_id: 200 }, message: MessageId(1) };
    assert!(m.event(old).is_empty());
    assert_eq!(m.event(new), vec![1]);
    m.unsubscribe_from_chat(guard(1, 7));
    assert!(m.event(new).is_empty());
}

#[test]
fn subscribing_without_a_session_does_nothing() {
    let mut m = SessionManagerInner::new();
    m.subsribe_to_chat(guard(4, 7), ChatId { chat_id: 100 });
    m.subsribe_to_user(guard(4, 7), UserId(8));
    let e = SessionEvent::NewMessage { chat: ChatId { chat_id: 100 }, message: MessageId(1) };
    assert!(m.event(e).is_empty());
    assert!(m.event(SessionEvent::UserUpdated { user: UserId(8) }).is_empty());
}

#[test]
fn joining_user_hears_in_two_turns() {
    let mut m = SessionManagerInner::new();
    m.begin(guard(1, 7));
    m.begin(guard(2, 8));
    m.subsribe_to_chat(guard(1, 7), ChatId { chat_id: 100 });
    m.subsribe_to_chat(guard(2, 8), ChatId { chat_id: 100 });
    let e = SessionEvent::UserJoined { chat: ChatId { chat_id: 100 }, user: UserId(8) };
    let r = m.event(e);
    assert_eq!(r.len(), 3);
    assert_eq!(sorted(r[..2].to_vec()), vec![1, 2]);
    assert_eq!(r[2], 2);
    let e = SessionEvent::UserLeft { chat: ChatId { chat_id: 100 }, user: UserId(7) };
    let r = m.event(e);
    assert_eq!(r.len(), 3);
    assert_eq!(r[2], 1);
}

#[test]
fn watching_users() {
    let mut m = SessionManagerInner::new();
    m.begin(guard(1, 7));
    m.begin(guard(2, 8));
    m.subsribe_to_user(guard(1, 7), UserId(8));
    let r = m.event(SessionEvent::UserUpdated { user: UserId(8) });
    assert_eq!(r, vec![1, 2]);
    m.subsribe_to_user(guard(1, 7), UserId(8));
    assert_eq!(m.event(SessionEvent::UserUpdated { user: UserId(8) }), vec![1, 2]);
    m.unsubscribe_from_user(guard(1, 7), UserId(8));
    assert_eq!(m.event(SessionEvent::UserUpdated { user: UserId(8) }), vec![2]);
    m.unsubscribe_from_user(guard(1, 7), UserId(8));
    assert_eq!(m.event(SessionEvent::UserUpdated { user: UserId(8) }), vec![2]);
}

#[test]
fn stale_stream_end_keeps_replacing_session() {
    let mut m = SessionManagerInner::new();
    let first = m.begin(guard(1, 7));
    m.subsribe_to_chat(guard(1, 7), ChatId { chat_id: 100 });
    let second = m.begin(guard(1, 7));
    assert_ne!(first.stream_id, second.stream_id);
    let e = SessionEvent::NewMessage { chat: ChatId { chat_id: 100 }, message: MessageId(1) };
    assert!(m.event(e).is_empty());
    assert!(!m.remove_active(first.stream_id, guard(1, 7)));
    assert_eq!(m.event(SessionEvent::WhoAmI { user: UserId(7) }), vec![1]);
    assert!(m.remove_active(second.stream_id, guard(1, 7)));
    assert!(!m.remove_active(second.stream_id, guard(1, 7)));
    assert!(m.event(SessionEvent::WhoAmI { user: UserId(7) }).is_empty());
}

#[test]
fn replacing_a_session_moves_it_to_another_user() {
    let mut m = SessionManagerInner::new();
    m.begin(guard(1, 7));
    m.subsribe_to_user(guard(1, 7), UserId(9));
    m.begin(guard(1, 8));
    assert!(m.event(SessionEvent::WhoAmI { user: UserId(7) }).is_empty());
    assert_eq!(m.event(SessionEvent::WhoAmI { user: UserId(8) }), vec![1]);
    assert!(m.event(SessionEvent::UserUpdated { user: UserId(9) }).is_empty());
}

#[test]
fn chat_subscription_needs_membership() {
    let mut m = SessionManagerInner::new();
    m.begin(guard(1, 7));
    let chat = ChatId { chat_id: 100 };
    assert_eq!(m.subscribe_if_member(guard(1, 7), chat, UserId(8)), Status::NotAcceptable);
    let e = SessionEvent::NewMessage { chat, message: MessageId(1) };
    assert!(m.event(e).is_empty());
    assert_eq!(m.subscribe_if_member(guard(1, 7), chat, UserId(7)), Status::Accepted);
    assert_eq!(m.event(e), vec![1]);
}

#[test]
fn login_sets_cookies_that_read_back() {
    let mut m = SessionManagerInner::new();
    m.next_session_id();
    let out = m.login(Ok(-42)).unwrap();
    assert_eq!(out.result(), AuthResult::Authorized);
    match out {
        LoginOutcome::Authorized { user_cookie, session_cookie } => {
            assert_eq!(user_cookie, "-42");
            assert_eq!(session_cookie, "1");
            let g = guard_from_cookies(Some(&user_cookie), Some(&session_cookie)).unwrap();
            assert_eq!(g.0, SessionId(1));
            assert_eq!(g.1.id(), UserId(-42));
        }
        LoginOutcome::Failed => panic!("login should succeed"),
    }
    assert_eq!(m.next_session_id(), SessionId(2));
}

#[test]
fn failed_login_uses_no_session_id() {
    let mut m = SessionManagerInner::new();
    let out = m.login(Err(DbFailure::NoRows)).unwrap();
    assert_eq!(out.result(), AuthResult::Failed);
    assert!(m.login(Err(DbFailure::Other)).is_err());
    assert_eq!(m.next_session_id(), SessionId(0));
}

#[test]
fn session_cookie_values() {
    assert_eq!(session_cookie_value(SessionId(0)), "0");
    assert_eq!(session_cookie_value(SessionId(u64::MAX)), "18446744073709551615");
    assert_eq!(session_from_cookie("18446744073709551615"), Some(SessionId(u64::MAX)));
    assert_eq!(session_from_cookie("+5"), Some(SessionId(5)));
    assert_eq!(session_from_cookie("-5"), None);
    assert_eq!(session_from_cookie("18446744073709551616"), None);
    assert_eq!(session_from_cookie(""), None);
}

#[test]
fn guard_needs_both_cookies() {
    assert!(guard_from_cookies(Some("7"), None).is_none());
    assert!(guard_from_cookies(None, Some("1")).is_none());
    assert!(guard_from_cookies(Some("x"), Some("1")).is_none());
    assert!(guard_from_cookies(Some("7"), Some("y")).is_none());
    let g = guard_from_cookies(Some("7"), Some("1")).unwrap();
    assert_eq!(g.1.id(), UserId(7));
}

#[test]
fn stream_ids_are_pairwise_distinct() {
    let mut m = SessionManagerInner::new();
    let mut seen = std::collections::HashSet::new();
    for k in 0..1000u64 {
        let id = m.next_stream_id();
        assert_eq!(id, k);
        assert!(seen.insert(id));
    }
    assert_eq!(m.next_session_id(), SessionId(0));
}
