//! Live sessions. A logged-in browser tab opens one event stream per session;
//! the registry remembers, for each session, the user it belongs to, the chat
//! it watches and the other users it watches, and indexes the sessions by
//! what they listen to, so that an event reaches exactly the sessions that
//! subscribed to it.
//!
//! A session's stream is named here by its session id: the registry keeps at
//! most one live stream per session id, and the caller holds the channel that
//! belongs to each id.

use std::collections::{HashMap, HashSet};
use vstd::prelude::*;
use crate::chats::ChatId;
use crate::ids::{MessageId, UserId};
use crate::listeners::{listed, Listeners};
use crate::decimal::{
    format_i64_spec, format_u64, format_u64_spec, parse_i64_spec, parse_u64, parse_u64_spec,
};
use crate::db::{Statement, Value};
use crate::outcome::{DbFailure, Status};
use crate::users::{user_cookie_value, user_from_cookie, UserLoggedIn};

verus! {

broadcast use vstd::std_specs::hash::group_hash_axioms;

/// Identifies a login session (one browser, kept in the `session_id` cookie).
#[derive(Clone, Copy, Debug, PartialEq, Eq, Structural, Hash, PartialOrd, Ord)]
pub struct SessionId(pub u64);

/// A request made within a login session by a logged-in user.
#[derive(Clone, Copy, Debug)]
pub struct SessionGuard(pub SessionId, pub UserLoggedIn);

/// What the server pushes to open sessions.
#[derive(Clone, Copy, Debug, PartialEq, Eq, Structural)]
pub enum SessionEvent {
    NewMessage { chat: ChatId, message: MessageId },
    MessageEdited { chat: ChatId, message: MessageId },
    MessageDeleted { chat: ChatId, message: MessageId },
    UserJoined { chat: ChatId, user: UserId },
    UserLeft { chat: ChatId, user: UserId },
    UserUpdated { user: UserId },
    UserDeleted { user: UserId },
    WhoAmI { user: UserId },
}

/// What the registry knows of one live session.
pub struct SessionView {
    /// The stream that the session currently has open.
    pub stream: u64,
    /// The user the session belongs to.
    pub user: i64,
    /// The chat the session watches, if any.
    pub chat: Option<i64>,
    /// The other users the session watches.
    pub others: Set<i64>,
}

/// One live session.
pub struct ActiveSession {
    stream_id: u64,
    self_listener: UserId,
    chat_listener: Option<ChatId>,
    other_listeners: HashSet<i64>,
}

impl View for ActiveSession {
    type V = SessionView;

    closed spec fn view(&self) -> SessionView {
        SessionView {
            stream: self.stream_id,
            user: self.self_listener.0,
            chat: match self.chat_listener {
                Some(c) => Some(c.chat_id),
                None => None,
            },
            others: self.other_listeners@,
        }
    }
}

impl ActiveSession {
    /// A session that has just opened stream `stream_id`: it listens to its
    /// own user and to nothing else.
    pub fn new(guard: SessionGuard, stream_id: u64) -> (r: Self)
        ensures
            r@ == (SessionView {
                stream: stream_id,
                user: guard.1.user().0,
                chat: None,
                others: Set::empty(),
            }),
    {
        ActiveSession {
            stream_id,
            chat_listener: None,
            self_listener: guard.1.id(),
            other_listeners: HashSet::new(),
        }
    }

    /// The stream this session has open.
    pub fn stream_id(&self) -> (r: u64)
        ensures
            r == self@.stream,
    {
        self.stream_id
    }
}

/// The counter after one step: it wraps around at the top.
pub open spec fn successor(n: u64) -> u64 {
    if n == u64::MAX {
        0
    } else {
        (n + 1) as u64
    }
}

/// Session `sid` belongs to `user`.
pub open spec fn owns(sessions: Map<u64, SessionView>, user: i64, sid: u64) -> bool {
    sessions.contains_key(sid) && sessions[sid].user == user
}

/// Session `sid` watches chat `chat`.
pub open spec fn watches_chat(sessions: Map<u64, SessionView>, chat: i64, sid: u64) -> bool {
    sessions.contains_key(sid) && sessions[sid].chat == Some(chat)
}

/// Session `sid` watches user `user`.
pub open spec fn watches_user(sessions: Map<u64, SessionView>, user: i64, sid: u64) -> bool {
    sessions.contains_key(sid) && sessions[sid].others.contains(user)
}

/// The sessions of `user`.
pub open spec fn own_sessions(sessions: Map<u64, SessionView>, user: i64) -> Set<u64> {
    Set::new(|sid: u64| owns(sessions, user, sid))
}

/// The sessions that watch chat `chat`.
pub open spec fn chat_watchers(sessions: Map<u64, SessionView>, chat: i64) -> Set<u64> {
    Set::new(|sid: u64| watches_chat(sessions, chat, sid))
}

/// The sessions that watch user `user`.
pub open spec fn user_watchers(sessions: Map<u64, SessionView>, user: i64) -> Set<u64> {
    Set::new(|sid: u64| watches_user(sessions, user, sid))
}

/// Who is told of `event`, in two turns: first the sessions of the first set,
/// then those of the second.
pub open spec fn audience(sessions: Map<u64, SessionView>, event: SessionEvent) -> (
    Set<u64>,
    Set<u64>,
) {
    match event {
        SessionEvent::NewMessage { chat, .. } => (chat_watchers(sessions, chat.chat_id), Set::empty()),
        SessionEvent::MessageEdited { chat, .. } => (
            chat_watchers(sessions, chat.chat_id),
            Set::empty(),
        ),
        SessionEvent::MessageDeleted { chat, .. } => (
            chat_watchers(sessions, chat.chat_id),
            Set::empty(),
        ),
        SessionEvent::UserJoined { chat, user } => (
            chat_watchers(sessions, chat.chat_id),
            own_sessions(sessions, user.0),
        ),
        SessionEvent::UserLeft { chat, user } => (
            chat_watchers(sessions, chat.chat_id),
            own_sessions(sessions, user.0),
        ),
        SessionEvent::UserUpdated { user } => (
            user_watchers(sessions, user.0),
            own_sessions(sessions, user.0),
        ),
        SessionEvent::UserDeleted { user } => (own_sessions(sessions, user.0), Set::empty()),
        SessionEvent::WhoAmI { user } => (own_sessions(sessions, user.0), Set::empty()),
    }
}

/// `r` names each session of `first` once, then each session of `second` once.
pub open spec fn delivered_in_turn(r: Seq<u64>, first: Set<u64>, second: Set<u64>) -> bool {
    exists|n: int|
        #![trigger r.take(n)]
        0 <= n <= r.len() && r.take(n).no_duplicates() && r.take(n).to_set() == first && r.skip(
            n,
        ).no_duplicates() && r.skip(n).to_set() == second
}

/// `view` with its chat set to `chat`.
pub open spec fn with_chat(view: SessionView, chat: Option<i64>) -> SessionView {
    SessionView { stream: view.stream, user: view.user, chat, others: view.others }
}

/// `view` with the watched users set to `others`.
pub open spec fn with_others(view: SessionView, others: Set<i64>) -> SessionView {
    SessionView { stream: view.stream, user: view.user, chat: view.chat, others }
}

/// What a freshly begun session is.
pub open spec fn fresh_session(stream: u64, user: i64) -> SessionView {
    SessionView { stream, user, chat: None, others: Set::empty() }
}

/// The sessions once session `sid` has begun anew on `stream` for `user`.
pub open spec fn begun(sessions: Map<u64, SessionView>, sid: u64, stream: u64, user: i64) -> Map<
    u64,
    SessionView,
> {
    sessions.insert(sid, fresh_session(stream, user))
}

/// The sessions once live session `sid` watches `chat` (or none); an id with
/// no live session changes nothing.
pub open spec fn chat_set(sessions: Map<u64, SessionView>, sid: u64, chat: Option<i64>) -> Map<
    u64,
    SessionView,
> {
    if sessions.contains_key(sid) {
        sessions.insert(sid, with_chat(sessions[sid], chat))
    } else {
        sessions
    }
}

/// The sessions once live session `sid` watches `user` as well.
pub open spec fn user_watched(sessions: Map<u64, SessionView>, sid: u64, user: i64) -> Map<
    u64,
    SessionView,
> {
    if sessions.contains_key(sid) {
        sessions.insert(sid, with_others(sessions[sid], sessions[sid].others.insert(user)))
    } else {
        sessions
    }
}

/// The sessions once live session `sid` no longer watches `user`.
pub open spec fn user_unwatched(sessions: Map<u64, SessionView>, sid: u64, user: i64) -> Map<
    u64,
    SessionView,
> {
    if sessions.contains_key(sid) {
        sessions.insert(sid, with_others(sessions[sid], sessions[sid].others.remove(user)))
    } else {
        sessions
    }
}

/// The sessions once `stream` of session `sid` has ended: the session goes
/// only if that stream is the one it still has open.
pub open spec fn stream_ended(sessions: Map<u64, SessionView>, sid: u64, stream: u64) -> Map<
    u64,
    SessionView,
> {
    if sessions.contains_key(sid) && sessions[sid].stream == stream {
        sessions.remove(sid)
    } else {
        sessions
    }
}

/// What `begin` hands back: the stream's number, and the first event to send
/// on it.
pub struct SessionStart {
    pub stream_id: u64,
    pub greeting: SessionEvent,
}

/// The registry of live sessions.
pub struct SessionManagerInner {
    next_session_id: u64,
    next_stream_id: u64,
    active_sessions: HashMap<u64, ActiveSession>,
    self_listeners: Listeners,
    other_listeners: Listeners,
    chat_listeners: Listeners,
}

impl SessionManagerInner {
    /// The live sessions, by session id.
    pub closed spec fn sessions(&self) -> Map<u64, SessionView> {
        Map::new(
            |sid: u64| self.active_sessions@.contains_key(sid),
            |sid: u64| self.active_sessions@[sid]@,
        )
    }

    /// The next session id to hand out.
    pub closed spec fn session_counter(&self) -> u64 {
        self.next_session_id
    }

    /// The next stream number to hand out.
    pub closed spec fn stream_counter(&self) -> u64 {
        self.next_stream_id
    }

    /// The three indexes list exactly what `sessions` subscribed to.
    closed spec fn indexes(&self, sessions: Map<u64, SessionView>) -> bool {
        &&& forall|k: i64, s: u64| #[trigger]
            listed(self.self_listeners@, k, s) <==> owns(sessions, k, s)
        &&& forall|k: i64, s: u64| #[trigger]
            listed(self.chat_listeners@, k, s) <==> watches_chat(sessions, k, s)
        &&& forall|k: i64, s: u64| #[trigger]
            listed(self.other_listeners@, k, s) <==> watches_user(sessions, k, s)
    }

    closed spec fn listeners_wf(&self) -> bool {
        &&& self.self_listeners.wf()
        &&& self.other_listeners.wf()
        &&& self.chat_listeners.wf()
    }

    /// The registry is consistent: its indexes hold exactly the live
    /// sessions' subscriptions.
    pub closed spec fn wf(&self) -> bool {
        &&& self.listeners_wf()
        &&& self.indexes(self.sessions())
        &&& forall|sid: u64| #[trigger]
            self.active_sessions@.contains_key(sid) ==> self.active_sessions@[sid]@.others.finite()
    }

    /// An empty registry.
    pub fn new() -> (r: Self)
        ensures
            r.wf(),
            r.sessions() == Map::<u64, SessionView>::empty(),
            r.session_counter() == 0,
            r.stream_counter() == 0,
    {
        let r = SessionManagerInner {
            next_session_id: 0,
            next_stream_id: 0,
            active_sessions: HashMap::new(),
            self_listeners: Listeners::new(),
            other_listeners: Listeners::new(),
            chat_listeners: Listeners::new(),
        };
        assert(r.sessions() =~= Map::<u64, SessionView>::empty());
        r
    }

    /// Hands out a session id; ids are handed out in turn, wrapping around.
    pub fn next_session_id(&mut self) -> (r: SessionId)
        requires
            old(self).wf(),
        ensures
            final(self).wf(),
            r.0 == old(self).session_counter(),
            final(self).session_counter() == successor(old(self).session_counter()),
            final(self).stream_counter() == old(self).stream_counter(),
            final(self).sessions() == old(self).sessions(),
    {
        let id = self.next_session_id;
        self.next_session_id = if id == u64::MAX {
            0
        } else {
            id + 1
        };
        SessionId(id)
    }

    /// Hands out a stream number; numbers are handed out in turn, wrapping
    /// around.
    pub fn next_stream_id(&mut self) -> (r: u64)
        requires
            old(self).wf(),
        ensures
            final(self).wf(),
            r == old(self).stream_counter(),
            final(self).stream_counter() == successor(old(self).stream_counter()),
            final(self).session_counter() == old(self).session_counter(),
            final(self).sessions() == old(self).sessions(),
    {
        let id = self.next_stream_id;
        self.next_stream_id = if id == u64::MAX {
            0
        } else {
            id + 1
        };
        id
    }

    /// Takes session `sid` out of the three indexes; `before` is the set of
    /// sessions the indexes described, `session` the one that goes.
    fn unregister(
        &mut self,
        sid: u64,
        session: &ActiveSession,
        Ghost(before): Ghost<Map<u64, SessionView>>,
    )
        requires
            old(self).listeners_wf(),
            old(self).indexes(before),
            before.contains_key(sid),
            before[sid] == session@,
        ensures
            final(self).listeners_wf(),
            final(self).indexes(before.remove(sid)),
            final(self).active_sessions == old(self).active_sessions,
            final(self).next_session_id == old(self).next_session_id,
            final(self).next_stream_id == old(self).next_stream_id,
    {
        let ghost after = before.remove(sid);
        self.self_listeners.remove(session.self_listener.0, sid);
        match session.chat_listener {
            Some(c) => {
                self.chat_listeners.remove(c.chat_id, sid);
            },
            None => {},
        }
        self.other_listeners.remove_from_all(&session.other_listeners, sid);
        assert forall|k: i64, s: u64| #[trigger]
            listed(self.self_listeners@, k, s) <==> owns(after, k, s) by {
            if s == sid && k == before[sid].user {
                assert(listed(old(self).self_listeners@, k, s));
            }
        }
        assert forall|k: i64, s: u64| #[trigger]
            listed(self.chat_listeners@, k, s) <==> watches_chat(after, k, s) by {
            if s == sid && before[sid].chat == Some(k) {
                assert(listed(old(self).chat_listeners@, k, s));
            }
        }
        assert forall|k: i64, s: u64| #[trigger]
            listed(self.other_listeners@, k, s) <==> watches_user(after, k, s) by {
            if s == sid && before[sid].others.contains(k) {
                assert(listed(old(self).other_listeners@, k, s));
            }
        }
    }

    /// Opens a new stream for the session of `session`; a session that was
    /// live under the same id is replaced, and its subscriptions dropped.
    /// The new session listens to its own user only.
    pub fn begin(&mut self, session: SessionGuard) -> (r: SessionStart)
        requires
            old(self).wf(),
        ensures
            final(self).wf(),
            r.stream_id == old(self).stream_counter(),
            r.greeting == (SessionEvent::WhoAmI { user: session.1.user() }),
            final(self).stream_counter() == successor(old(self).stream_counter()),
            final(self).session_counter() == old(self).session_counter(),
            final(self).sessions() == begun(old(self).sessions(), session.0.0, r.stream_id, session.1.user().0),
    {
        let stream_id = self.next_stream_id();
        let sid = session.0.0;
        let user = session.1.id();
        let ghost before = self.sessions();
        let replaced = self.active_sessions.insert(sid, ActiveSession::new(session, stream_id));
        let ghost mid = before.remove(sid);
        match replaced {
            Some(old_session) => {
                assert(old_session@ == before[sid]);
                self.unregister(sid, &old_session, Ghost(before));
            },
            None => {
                assert(before =~= mid);
            },
        }
        self.self_listeners.listen(user.0, sid);
        let ghost after = mid.insert(sid, fresh_session(stream_id, user.0));
        assert(self.sessions() =~= after);
        assert forall|k: i64, s: u64| #[trigger]
            listed(self.self_listeners@, k, s) <==> owns(after, k, s) by {}
        assert forall|k: i64, s: u64| #[trigger]
            listed(self.chat_listeners@, k, s) <==> watches_chat(after, k, s) by {}
        assert forall|k: i64, s: u64| #[trigger]
            listed(self.other_listeners@, k, s) <==> watches_user(after, k, s) by {}
        SessionStart { stream_id, greeting: SessionEvent::WhoAmI { user } }
    }

    /// The session of `guard` stops watching its chat, if it watches one.
    pub fn unsubscribe_from_chat(&mut self, guard: SessionGuard)
        requires
            old(self).wf(),
        ensures
            final(self).wf(),
            final(self).session_counter() == old(self).session_counter(),
            final(self).stream_counter() == old(self).stream_counter(),
            final(self).sessions() == chat_set(old(self).sessions(), guard.0.0, None),
    {
        let sid = guard.0.0;
        let ghost before = self.sessions();
        match self.active_sessions.remove(&sid) {
            Some(mut active) => {
                match active.chat_listener {
                    Some(current) => {
                        self.chat_listeners.remove(current.chat_id, sid);
                    },
                    None => {},
                }
                active.chat_listener = None;
                self.active_sessions.insert(sid, active);
                let ghost after = before.insert(sid, with_chat(before[sid], None));
                assert(self.sessions() =~= after);
                assert forall|k: i64, s: u64| #[trigger]
                    listed(self.self_listeners@, k, s) <==> owns(after, k, s) by {}
                assert forall|k: i64, s: u64| #[trigger]
                    listed(self.chat_listeners@, k, s) <==> watches_chat(after, k, s) by {}
                assert forall|k: i64, s: u64| #[trigger]
                    listed(self.other_listeners@, k, s) <==> watches_user(after, k, s) by {}
            },
            None => {
                assert(self.sessions() =~= before);
            },
        }
    }

    /// The session of `guard` watches `chat` from now on, in place of the chat
    /// it watched before; a session watches at most one chat.
    pub fn subsribe_to_chat(&mut self, guard: SessionGuard, chat: ChatId)
        requires
            old(self).wf(),
        ensures
            final(self).wf(),
            final(self).session_counter() == old(self).session_counter(),
            final(self).stream_counter() == old(self).stream_counter(),
            final(self).sessions() == chat_set(old(self).sessions(), guard.0.0, Some(chat.chat_id)),
    {
        let sid = guard.0.0;
        let ghost before = self.sessions();
        match self.active_sessions.remove(&sid) {
            Some(mut active) => {
                match active.chat_listener {
                    Some(current) => {
                        self.chat_listeners.remove(current.chat_id, sid);
                    },
                    None => {},
                }
                active.chat_listener = Some(chat);
                self.chat_listeners.listen(chat.chat_id, sid);
                self.active_sessions.insert(sid, active);
                let ghost after = before.insert(sid, with_chat(before[sid], Some(chat.chat_id)));
                assert(self.sessions() =~= after);
                assert forall|k: i64, s: u64| #[trigger]
                    listed(self.self_listeners@, k, s) <==> owns(after, k, s) by {}
                assert forall|k: i64, s: u64| #[trigger]
                    listed(self.chat_listeners@, k, s) <==> watches_chat(after, k, s) by {}
                assert forall|k: i64, s: u64| #[trigger]
                    listed(self.other_listeners@, k, s) <==> watches_user(after, k, s) by {}
            },
            None => {
                assert(self.sessions() =~= before);
            },
        }
    }

    /// The session of `guard` stops watching `user`.
    pub fn unsubscribe_from_user(&mut self, guard: SessionGuard, user: UserId)
        requires
            old(self).wf(),
        ensures
            final(self).wf(),
            final(self).session_counter() == old(self).session_counter(),
            final(self).stream_counter() == old(self).stream_counter(),
            final(self).sessions() == user_unwatched(old(self).sessions(), guard.0.0, user.0),
    {
        let sid = guard.0.0;
        let ghost before = self.sessions();
        match self.active_sessions.remove(&sid) {
            Some(mut active) => {
                if active.other_listeners.remove(&user.0) {
                    self.other_listeners.remove(user.0, sid);
                }
                self.active_sessions.insert(sid, active);
                let ghost after = before.insert(
                    sid,
                    with_others(before[sid], before[sid].others.remove(user.0)),
                );
                assert(self.sessions() =~= after);
                assert forall|k: i64, s: u64| #[trigger]
                    listed(self.self_listeners@, k, s) <==> owns(after, k, s) by {}
                assert forall|k: i64, s: u64| #[trigger]
                    listed(self.chat_listeners@, k, s) <==> watches_chat(after, k, s) by {}
                assert forall|k: i64, s: u64| #[trigger]
                    listed(self.other_listeners@, k, s) <==> watches_user(after, k, s) by {
                    if s == sid && k != user.0 && before[sid].others.contains(k) {
                        assert(listed(old(self).other_listeners@, k, s));
                    }
                }
            },
            None => {
                assert(self.sessions() =~= before);
            },
        }
    }

    /// The session of `guard` watches `user` from now on.
    pub fn subsribe_to_user(&mut self, guard: SessionGuard, user: UserId)
        requires
            old(self).wf(),
        ensures
            final(self).wf(),
            final(self).session_counter() == old(self).session_counter(),
            final(self).stream_counter() == old(self).stream_counter(),
            final(self).sessions() == user_watched(old(self).sessions(), guard.0.0, user.0),
    {
        let sid = guard.0.0;
        let ghost before = self.sessions();
        match self.active_sessions.remove(&sid) {
            Some(mut active) => {
                if active.other_listeners.insert(user.0) {
                    self.other_listeners.listen(user.0, sid);
                }
                self.active_sessions.insert(sid, active);
                let ghost after = before.insert(
                    sid,
                    with_others(before[sid], before[sid].others.insert(user.0)),
                );
                assert(self.sessions() =~= after);
                assert forall|k: i64, s: u64| #[trigger]
                    listed(self.self_listeners@, k, s) <==> owns(after, k, s) by {}
                assert forall|k: i64, s: u64| #[trigger]
                    listed(self.chat_listeners@, k, s) <==> watches_chat(after, k, s) by {}
                assert forall|k: i64, s: u64| #[trigger]
                    listed(self.other_listeners@, k, s) <==> watches_user(after, k, s) by {
                    if s == sid && before[sid].others.contains(k) {
                        assert(listed(old(self).other_listeners@, k, s));
                    }
                }
            },
            None => {
                assert(self.sessions() =~= before);
            },
        }
    }

    /// Closes the session of `guard` when the stream that ends is the one the
    /// session still has open; a stream that was replaced changes nothing.
    /// Tells whether the session was closed.
    pub fn remove_active(&mut self, stream_id: u64, guard: SessionGuard) -> (r: bool)
        requires
            old(self).wf(),
        ensures
            final(self).wf(),
            r == (old(self).sessions().contains_key(guard.0.0) && old(self).sessions()[guard.0.0].stream
                == stream_id),
            final(self).session_counter() == old(self).session_counter(),
            final(self).stream_counter() == old(self).stream_counter(),
            final(self).sessions() == stream_ended(old(self).sessions(), guard.0.0, stream_id),
    {
        let sid = guard.0.0;
        let ghost before = self.sessions();
        match self.active_sessions.remove(&sid) {
            Some(active) => {
                if active.stream_id == stream_id {
                    self.unregister(sid, &active, Ghost(before));
                    assert(self.sessions() =~= before.remove(sid));
                    true
                } else {
                    self.active_sessions.insert(sid, active);
                    assert(self.sessions() =~= before);
                    false
                }
            },
            None => {
                assert(self.sessions() =~= before);
                false
            },
        }
    }

    /// The sessions of `user`, each once.
    fn sessions_of(&self, user: UserId) -> (r: Vec<u64>)
        requires
            self.wf(),
        ensures
            r@.no_duplicates(),
            r@.to_set() == own_sessions(self.sessions(), user.0),
    {
        let r = self.self_listeners.members(user.0);
        assert forall|s: u64| r@.to_set().contains(s) <==> own_sessions(self.sessions(), user.0).contains(s) by {
            assert(listed(self.self_listeners@, user.0, s) <==> owns(self.sessions(), user.0, s));
        }
        assert(r@.to_set() =~= own_sessions(self.sessions(), user.0));
        r
    }

    /// The sessions that watch `chat`, each once.
    fn watchers_of_chat(&self, chat: ChatId) -> (r: Vec<u64>)
        requires
            self.wf(),
        ensures
            r@.no_duplicates(),
            r@.to_set() == chat_watchers(self.sessions(), chat.chat_id),
    {
        let r = self.chat_listeners.members(chat.chat_id);
        assert forall|s: u64| r@.to_set().contains(s) <==> chat_watchers(self.sessions(), chat.chat_id).contains(s) by {
            assert(listed(self.chat_listeners@, chat.chat_id, s) <==> watches_chat(self.sessions(), chat.chat_id, s));
        }
        assert(r@.to_set() =~= chat_watchers(self.sessions(), chat.chat_id));
        r
    }

    /// The sessions that watch `user`, each once.
    fn watchers_of_user(&self, user: UserId) -> (r: Vec<u64>)
        requires
            self.wf(),
        ensures
            r@.no_duplicates(),
            r@.to_set() == user_watchers(self.sessions(), user.0),
    {
        let r = self.other_listeners.members(user.0);
        assert forall|s: u64| r@.to_set().contains(s) <==> user_watchers(self.sessions(), user.0).contains(s) by {
            assert(listed(self.other_listeners@, user.0, s) <==> watches_user(self.sessions(), user.0, s));
        }
        assert(r@.to_set() =~= user_watchers(self.sessions(), user.0));
        r
    }

    /// The sessions to which `event` goes, by session id, in the order in
    /// which it is sent: a session appears once for each reason it has to
    /// hear of the event.
    pub fn event(&self, event: SessionEvent) -> (r: Vec<u64>)
        requires
            self.wf(),
        ensures
            delivered_in_turn(r@, audience(self.sessions(), event).0, audience(self.sessions(), event).1),
    {
        let (mut first, mut second) = match event {
            SessionEvent::NewMessage { chat, .. }
            | SessionEvent::MessageEdited { chat, .. }
            | SessionEvent::MessageDeleted { chat, .. } => {
                (self.watchers_of_chat(chat), Vec::new())
            },
            SessionEvent::UserJoined { chat, user } | SessionEvent::UserLeft { chat, user } => {
                (self.watchers_of_chat(chat), self.sessions_of(user))
            },
            SessionEvent::UserUpdated { user } => {
                (self.watchers_of_user(user), self.sessions_of(user))
            },
            SessionEvent::WhoAmI { user } | SessionEvent::UserDeleted { user } => {
                (self.sessions_of(user), Vec::new())
            },
        };
        proof {
            assert(second@.to_set() =~= audience(self.sessions(), event).1);
        }
        let ghost a = first@;
        let ghost b = second@;
        first.append(&mut second);
        proof {
            let n = a.len() as int;
            assert(first@.take(n) =~= a);
            assert(first@.skip(n) =~= b);
        }
        first
    }

    /// Subscribes the session of `guard` to `chat` once the database has
    /// answered with `member`, the member row of the caller in that chat: a
    /// row of another user is refused with `NotAcceptable`, and nothing
    /// changes.
    pub fn subscribe_if_member(&mut self, guard: SessionGuard, chat: ChatId, member: UserId) -> (r:
        Status)
        requires
            old(self).wf(),
        ensures
            final(self).wf(),
            final(self).session_counter() == old(self).session_counter(),
            final(self).stream_counter() == old(self).stream_counter(),
            member != guard.1.user() ==> r == Status::NotAcceptable && final(self).sessions()
                == old(self).sessions(),
            member == guard.1.user() ==> r == Status::Accepted && final(self).sessions() == chat_set(
                old(self).sessions(),
                guard.0.0,
                Some(chat.chat_id),
            ),
    {
        if member != guard.1.id() {
            return Status::NotAcceptable;
        }
        self.subsribe_to_chat(guard, chat);
        Status::Accepted
    }

    /// Logs a user in once the database has answered the credential check with
    /// `found`: a user id gives the two cookies to set, for the user and for a
    /// session id newly handed out; no matching row is a failed login; any
    /// other error is passed on. Only a successful login uses up a session id.
    pub fn login(&mut self, found: Result<i64, DbFailure>) -> (r: Result<LoginOutcome, DbFailure>)
        requires
            old(self).wf(),
        ensures
            final(self).wf(),
            final(self).sessions() == old(self).sessions(),
            final(self).stream_counter() == old(self).stream_counter(),
            match found {
                Ok(id) => {
                    &&& final(self).session_counter() == successor(old(self).session_counter())
                    &&& r matches Ok(LoginOutcome::Authorized { user_cookie, session_cookie })
                    &&& user_cookie@ == format_i64_spec(id)
                    &&& session_cookie@ == format_u64_spec(old(self).session_counter())
                },
                Err(DbFailure::NoRows) => {
                    &&& final(self).session_counter() == old(self).session_counter()
                    &&& r == Ok::<LoginOutcome, DbFailure>(LoginOutcome::Failed)
                },
                Err(DbFailure::Other) => {
                    &&& final(self).session_counter() == old(self).session_counter()
                    &&& r == Err::<LoginOutcome, DbFailure>(DbFailure::Other)
                },
            },
    {
        match found {
            Ok(id) => {
                let user_cookie = user_cookie_value(UserId(id));
                let session = self.next_session_id();
                let session_cookie = session_cookie_value(session);
                Ok(LoginOutcome::Authorized { user_cookie, session_cookie })
            },
            Err(DbFailure::NoRows) => Ok(LoginOutcome::Failed),
            Err(DbFailure::Other) => Err(DbFailure::Other),
        }
    }
}

impl Default for SessionManagerInner {
    /// An empty registry.
    fn default() -> (r: Self)
        ensures
            r.wf(),
            r.sessions() == Map::<u64, SessionView>::empty(),
            r.session_counter() == 0,
            r.stream_counter() == 0,
    {
        SessionManagerInner::new()
    }
}

/// Finds the account that an email and password open.
pub const LOGIN_SQL: &'static str = "SELECT user_id FROM users WHERE email=:email AND password=:password";

/// The credentials of a login.
#[derive(Clone, Debug)]
pub struct LoginRequest {
    pub email: String,
    pub password: String,
}

/// The statement that checks the credentials `login`.
pub fn login_check(login: LoginRequest) -> (r: Statement)
    ensures
        r.sql == LOGIN_SQL,
        r.params@ == seq![(":email", Value::Text(login.email)), (":password", Value::Text(login.password))],
{
    Statement {
        sql: LOGIN_SQL,
        params: vec![(":email", Value::Text(login.email)), (":password", Value::Text(login.password))],
    }
}

/// The answer to a login request.
#[derive(Clone, Copy, Debug, PartialEq, Eq, Structural)]
pub enum AuthResult {
    Authorized,
    Failed,
}

/// What a login does: set the two cookies, or fail.
pub enum LoginOutcome {
    Authorized { user_cookie: String, session_cookie: String },
    Failed,
}

impl LoginOutcome {
    /// The answer that the client sees.
    pub fn result(&self) -> (r: AuthResult)
        ensures
            r == (if self is Failed {
                AuthResult::Failed
            } else {
                AuthResult::Authorized
            }),
    {
        match self {
            LoginOutcome::Authorized { .. } => AuthResult::Authorized,
            LoginOutcome::Failed => AuthResult::Failed,
        }
    }
}

/// The value of the `session_id` cookie for `id`: the id in decimal.
pub fn session_cookie_value(id: SessionId) -> (r: String)
    ensures
        r@ == format_u64_spec(id.0),
{
    format_u64(id.0)
}

/// The session that a `session_id` cookie names, if its value reads as an id.
pub fn session_from_cookie(value: &str) -> (r: Option<SessionId>)
    ensures
        r == match parse_u64_spec(value@) {
            Some(n) => Some(SessionId(n)),
            None => None::<SessionId>,
        },
{
    match parse_u64(value) {
        Some(n) => Some(SessionId(n)),
        None => None,
    }
}

/// The session guard that a request's two cookies name: both must be there
/// and read as ids.
pub fn guard_from_cookies(user_cookie: Option<&str>, session_cookie: Option<&str>) -> (r: Option<
    SessionGuard,
>)
    ensures
        r is Some <==> (user_cookie is Some && parse_i64_spec(user_cookie->0@) is Some
            && session_cookie is Some && parse_u64_spec(session_cookie->0@) is Some),
        r matches Some(g) ==> g.1.user() == UserId(parse_i64_spec(user_cookie->0@)->0)
            && g.0 == SessionId(parse_u64_spec(session_cookie->0@)->0),
{
    let user = match user_cookie {
        Some(u) => user_from_cookie(u),
        None => None,
    };
    match user {
        Some(user) => match session_cookie {
            Some(s) => match session_from_cookie(s) {
                Some(id) => Some(SessionGuard(id, user)),
                None => None,
            },
            None => None,
        },
        None => None,
    }
}

/// An event sent as `event` says reaches a session exactly when the session
/// is in one of the two audiences.
pub proof fn law_event_reaches_its_audience(r: Seq<u64>, first: Set<u64>, second: Set<u64>)
    requires
        delivered_in_turn(r, first, second),
    ensures
        forall|s: u64| r.contains(s) <==> first.contains(s) || second.contains(s),
{
    let n = choose|n: int|
        #![trigger r.take(n)]
        0 <= n <= r.len() && r.take(n).no_duplicates() && r.take(n).to_set() == first && r.skip(
            n,
        ).no_duplicates() && r.skip(n).to_set() == second;
    assert forall|s: u64| r.contains(s) <==> first.contains(s) || second.contains(s) by {
        if r.contains(s) {
            let j = choose|j: int| 0 <= j < r.len() && r[j] == s;
            if j < n {
                assert(r.take(n)[j] == s);
                assert(r.take(n).to_set().contains(s));
            } else {
                assert(r.skip(n)[j - n] == s);
                assert(r.skip(n).to_set().contains(s));
            }
        }
        if first.contains(s) {
            assert(r.take(n).to_set().contains(s));
            let j = choose|j: int| 0 <= j < r.take(n).len() && r.take(n)[j] == s;
            assert(r[j] == s);
        }
        if second.contains(s) {
            assert(r.skip(n).to_set().contains(s));
            let j = choose|j: int| 0 <= j < r.skip(n).len() && r.skip(n)[j] == s;
            assert(r[j + n] == s);
        }
    }
}

/// Only live sessions hear of events: both audiences of every event are made
/// of live sessions.
pub proof fn law_only_live_sessions_hear(sessions: Map<u64, SessionView>, event: SessionEvent)
    ensures
        forall|s: u64| #[trigger] audience(sessions, event).0.contains(s) ==> sessions.contains_key(s),
        forall|s: u64| #[trigger] audience(sessions, event).1.contains(s) ==> sessions.contains_key(s),
{
}

/// The cookies that a login sets name, when read back, the user who logged in
/// and the session id it was given.
pub proof fn law_login_cookies_read_back(user: i64, session: u64)
    ensures
        parse_i64_spec(format_i64_spec(user)) == Some(user),
        parse_u64_spec(format_u64_spec(session)) == Some(session),
{
    crate::decimal::lemma_i64_round_trip(user);
    crate::decimal::lemma_u64_round_trip(session);
}

/// Who hears each event, turn by turn, said of each session directly: a
/// message event reaches the sessions that watch its chat, and only in the
/// first turn; a join or a departure reaches the chat's watchers, then the
/// sessions of the user who joined or left; a profile update reaches the
/// sessions watching the user, then the user's own; a deletion or a `WhoAmI`
/// reaches the user's own sessions and no one else.
pub proof fn law_who_hears_each_event(sessions: Map<u64, SessionView>, event: SessionEvent, s: u64)
    ensures
        match event {
            SessionEvent::NewMessage { chat, .. }
            | SessionEvent::MessageEdited { chat, .. }
            | SessionEvent::MessageDeleted { chat, .. } => {
                &&& audience(sessions, event).0.contains(s) <==> (sessions.contains_key(s)
                    && sessions[s].chat == Some(chat.chat_id))
                &&& !audience(sessions, event).1.contains(s)
            },
            SessionEvent::UserJoined { chat, user } | SessionEvent::UserLeft { chat, user } => {
                &&& audience(sessions, event).0.contains(s) <==> (sessions.contains_key(s)
                    && sessions[s].chat == Some(chat.chat_id))
                &&& audience(sessions, event).1.contains(s) <==> (sessions.contains_key(s)
                    && sessions[s].user == user.0)
            },
            SessionEvent::UserUpdated { user } => {
                &&& audience(sessions, event).0.contains(s) <==> (sessions.contains_key(s)
                    && sessions[s].others.contains(user.0))
                &&& audience(sessions, event).1.contains(s) <==> (sessions.contains_key(s)
                    && sessions[s].user == user.0)
            },
            SessionEvent::UserDeleted { user } | SessionEvent::WhoAmI { user } => {
                &&& audience(sessions, event).0.contains(s) <==> (sessions.contains_key(s)
                    && sessions[s].user == user.0)
                &&& !audience(sessions, event).1.contains(s)
            },
        },
{
}

/// Subscribing (or unsubscribing) a session to a chat changes that session's
/// chat and nothing else: its stream, its user and the users it watches stay,
/// every other session stays, and no session comes or goes.
pub proof fn law_chat_subscription_changes_only_the_chat(
    sessions: Map<u64, SessionView>,
    sid: u64,
    chat: Option<i64>,
)
    ensures
        chat_set(sessions, sid, chat).dom() == sessions.dom(),
        forall|s: u64| #[trigger]
            sessions.contains_key(s) && s != sid ==> chat_set(sessions, sid, chat)[s] == sessions[s],
        sessions.contains_key(sid) ==> {
            &&& chat_set(sessions, sid, chat)[sid].chat == chat
            &&& chat_set(sessions, sid, chat)[sid].stream == sessions[sid].stream
            &&& chat_set(sessions, sid, chat)[sid].user == sessions[sid].user
            &&& chat_set(sessions, sid, chat)[sid].others == sessions[sid].others
        },
{
    assert(chat_set(sessions, sid, chat).dom() =~= sessions.dom());
}

/// Watching a user adds that user to the session's watched users and changes
/// nothing else; no longer watching takes exactly that user away.
pub proof fn law_watching_changes_only_the_watched_users(
    sessions: Map<u64, SessionView>,
    sid: u64,
    user: i64,
)
    ensures
        user_watched(sessions, sid, user).dom() == sessions.dom(),
        user_unwatched(sessions, sid, user).dom() == sessions.dom(),
        forall|s: u64| #[trigger]
            sessions.contains_key(s) && s != sid ==> user_watched(sessions, sid, user)[s] == sessions[s]
                && user_unwatched(sessions, sid, user)[s] == sessions[s],
        sessions.contains_key(sid) ==> {
            &&& forall|u: i64| #[trigger]
                user_watched(sessions, sid, user)[sid].others.contains(u) <==> (u == user
                    || sessions[sid].others.contains(u))
            &&& forall|u: i64| #[trigger]
                user_unwatched(sessions, sid, user)[sid].others.contains(u) <==> (u != user
                    && sessions[sid].others.contains(u))
            &&& user_watched(sessions, sid, user)[sid].chat == sessions[sid].chat
            &&& user_watched(sessions, sid, user)[sid].stream == sessions[sid].stream
            &&& user_watched(sessions, sid, user)[sid].user == sessions[sid].user
            &&& user_unwatched(sessions, sid, user)[sid].chat == sessions[sid].chat
            &&& user_unwatched(sessions, sid, user)[sid].stream == sessions[sid].stream
            &&& user_unwatched(sessions, sid, user)[sid].user == sessions[sid].user
        },
{
    assert(user_watched(sessions, sid, user).dom() =~= sessions.dom());
    assert(user_unwatched(sessions, sid, user).dom() =~= sessions.dom());
}

/// The end of a stream closes the session only when that stream is the one
/// the session has open; then that session alone goes. The end of any other
/// stream (one that was replaced) leaves every session as it was.
pub proof fn law_stream_end_closes_only_its_own_session(
    sessions: Map<u64, SessionView>,
    sid: u64,
    stream: u64,
)
    ensures
        !(sessions.contains_key(sid) && sessions[sid].stream == stream) ==> stream_ended(
            sessions,
            sid,
            stream,
        ) == sessions,
        sessions.contains_key(sid) && sessions[sid].stream == stream ==> {
            &&& !stream_ended(sessions, sid, stream).contains_key(sid)
            &&& forall|s: u64| #[trigger]
                sessions.contains_key(s) && s != sid ==> stream_ended(sessions, sid, stream).contains_key(s)
                    && stream_ended(sessions, sid, stream)[s] == sessions[s]
            &&& forall|s: u64| #[trigger]
                stream_ended(sessions, sid, stream).contains_key(s) ==> sessions.contains_key(s)
        },
{
}

/// A session that begins on `stream` for `user` is live afterwards with that
/// stream and user, watching no chat and no user; every other session stays.
pub proof fn law_begin_opens_a_bare_session(
    sessions: Map<u64, SessionView>,
    sid: u64,
    stream: u64,
    user: i64,
)
    ensures
        begun(sessions, sid, stream, user).contains_key(sid),
        begun(sessions, sid, stream, user)[sid].stream == stream,
        begun(sessions, sid, stream, user)[sid].user == user,
        begun(sessions, sid, stream, user)[sid].chat is None,
        begun(sessions, sid, stream, user)[sid].others.is_empty(),
        forall|s: u64| #[trigger]
            begun(sessions, sid, stream, user).contains_key(s) <==> (s == sid || sessions.contains_key(s)),
        forall|s: u64| #[trigger]
            sessions.contains_key(s) && s != sid ==> begun(sessions, sid, stream, user)[s] == sessions[s],
{
}

/// A session watches at most one chat: once it subscribes to `chat`, it
/// hears the events of `chat` and of no other chat.
pub proof fn law_one_chat_per_session(sessions: Map<u64, SessionView>, sid: u64, chat: i64, other: i64)
    requires
        sessions.contains_key(sid),
        other != chat,
    ensures
        chat_watchers(chat_set(sessions, sid, Some(chat)), chat).contains(sid),
        !chat_watchers(chat_set(sessions, sid, Some(chat)), other).contains(sid),
{
}

/// After it unsubscribes from its chat, a session hears no chat's events.
pub proof fn law_unsubscribed_session_hears_no_chat(sessions: Map<u64, SessionView>, sid: u64, chat: i64)
    ensures
        !chat_watchers(chat_set(sessions, sid, None), chat).contains(sid),
{
}

/// Watching a user and then no longer watching that user leaves a session as
/// it was, when it did not watch that user before.
pub proof fn law_unwatch_undoes_watch(sessions: Map<u64, SessionView>, sid: u64, user: i64)
    requires
        sessions.contains_key(sid),
        !sessions[sid].others.contains(user),
    ensures
        user_unwatched(user_watched(sessions, sid, user), sid, user) == sessions,
{
    let after = user_unwatched(user_watched(sessions, sid, user), sid, user);
    assert(after[sid].others =~= sessions[sid].others);
    assert(after =~= sessions);
}

/// A session that has begun anew on a second stream outlives the end of its
/// first stream: only the end of the stream it has open closes it.
pub proof fn law_replaced_stream_end_is_harmless(
    sessions: Map<u64, SessionView>,
    sid: u64,
    first: u64,
    second: u64,
    user: i64,
    again: i64,
)
    requires
        first != second,
    ensures
        stream_ended(begun(begun(sessions, sid, first, user), sid, second, again), sid, first)
            == begun(begun(sessions, sid, first, user), sid, second, again),
        !stream_ended(
            begun(begun(sessions, sid, first, user), sid, second, again),
            sid,
            second,
        ).contains_key(sid),
{
}

/// A session that has just begun hears the events about its own user, and
/// nothing about chats or other users.
pub proof fn law_begun_session_hears_its_user(
    sessions: Map<u64, SessionView>,
    sid: u64,
    stream: u64,
    user: i64,
    chat: i64,
    other: i64,
)
    ensures
        own_sessions(begun(sessions, sid, stream, user), user).contains(sid),
        !chat_watchers(begun(sessions, sid, stream, user), chat).contains(sid),
        !user_watchers(begun(sessions, sid, stream, user), other).contains(sid),
{
}

/// The value of a counter that started at `n` after `k` steps.
pub open spec fn steps(n: u64, k: nat) -> u64
    decreases k,
{
    if k == 0 {
        n
    } else {
        successor(steps(n, (k - 1) as nat))
    }
}

/// After fewer than 2^64 steps, a counter that started at `n` holds `n + k`,
/// wrapped around at most once.
pub proof fn lemma_steps_value(n: u64, k: nat)
    requires
        k <= u64::MAX,
    ensures
        steps(n, k) == if n + k <= u64::MAX {
            n + k
        } else {
            n + k - u64::MAX - 1
        },
    decreases k,
{
    if k > 0 {
        lemma_steps_value(n, (k - 1) as nat);
    }
}

/// Each call of `next_stream_id` (or `next_session_id`) hands out the
/// counter and steps it, so `k` calls in turn hand out
/// `steps(n, 0), ..., steps(n, k - 1)`; any 2^64 of these in a row are
/// pairwise distinct.
pub proof fn law_counter_values_distinct(n: u64, i: nat, j: nat)
    requires
        i < j,
        j <= u64::MAX,
    ensures
        steps(n, i) != steps(n, j),
{
    lemma_steps_value(n, i);
    lemma_steps_value(n, j);
}

/// The two counters hand out a different value at each step until they wrap
/// around.
pub proof fn law_counter_steps(n: u64)
    ensures
        successor(n) != n,
        n < u64::MAX ==> successor(n) == n + 1,
{
}

} // verus!
