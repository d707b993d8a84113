//! Per-chat and per-user event channels: a registry of the listeners of each
//! channel, from which listeners whose stream has closed are dropped when the
//! next event is sent.

use std::collections::HashMap;
use vstd::prelude::*;
use crate::outcome::DbFailure;

verus! {

broadcast use vstd::std_specs::hash::group_hash_axioms;

/// What the stream of a chat carries.
#[derive(Clone, Copy, Debug, PartialEq, Eq, Structural)]
pub enum ChatEvent {
    NewMessage(i64),
    MessageEdited(i64),
    MessageDeleted(i64),
    UserUpdated(i64),
    UserJoined(i64),
    UserLeft(i64),
}

/// What the stream of a user carries.
#[derive(Clone, Copy, Debug, PartialEq, Eq, Structural)]
pub enum UserEvent {
    NewChat(i64),
    DeletedChat(i64),
    ChatNotification(i64),
}

/// The listeners of `s` that are not in `closed`, in their order.
pub open spec fn still_open(s: Seq<u64>, closed: Seq<u64>) -> Seq<u64>
    decreases s.len(),
{
    if s.len() == 0 {
        Seq::empty()
    } else {
        let rest = still_open(s.drop_last(), closed);
        if closed.contains(s.last()) {
            rest
        } else {
            rest.push(s.last())
        }
    }
}

/// The listeners of each channel, in the order in which they joined; a
/// channel with no listener is not kept.
pub struct EventThing {
    map: HashMap<i64, Vec<u64>>,
}

impl View for EventThing {
    type V = Map<i64, Seq<u64>>;

    closed spec fn view(&self) -> Map<i64, Seq<u64>> {
        Map::new(|k: i64| self.map@.contains_key(k), |k: i64| self.map@[k]@)
    }
}

/// The listeners of `channel` in `m`, or none.
pub open spec fn channel_listeners(m: Map<i64, Seq<u64>>, channel: i64) -> Seq<u64> {
    if m.contains_key(channel) {
        m[channel]
    } else {
        Seq::empty()
    }
}

impl EventThing {
    /// No channel is kept without a listener.
    pub open spec fn wf(&self) -> bool {
        forall|k: i64| #[trigger] self@.contains_key(k) ==> self@[k].len() > 0
    }

    /// A registry with no listener.
    pub fn new() -> (r: Self)
        ensures
            r.wf(),
            r@ == Map::<i64, Seq<u64>>::empty(),
    {
        let r = EventThing { map: HashMap::new() };
        assert(r@ =~= Map::<i64, Seq<u64>>::empty());
        r
    }

    /// Adds `listener` at the end of the listeners of `channel_id`.
    pub fn listen(&mut self, channel_id: i64, listener: u64)
        requires
            old(self).wf(),
        ensures
            final(self).wf(),
            final(self)@ == old(self)@.insert(
                channel_id,
                channel_listeners(old(self)@, channel_id).push(listener),
            ),
    {
        let ghost before = self@;
        let mut list = match self.map.remove(&channel_id) {
            Some(l) => l,
            None => Vec::new(),
        };
        list.push(listener);
        self.map.insert(channel_id, list);
        assert(self@ =~= before.insert(channel_id, channel_listeners(before, channel_id).push(listener)));
    }

    /// The listeners of `channel_id`, in order.
    pub fn listeners(&self, channel_id: i64) -> (r: Vec<u64>)
        ensures
            r@ == channel_listeners(self@, channel_id),
    {
        match self.map.get(&channel_id) {
            Some(l) => l.clone(),
            None => Vec::new(),
        }
    }

    /// Sends an event on `channel_id`: the listeners named in `closed` (those
    /// whose stream has closed) are dropped for good, and the event goes to
    /// the others, in order; a channel left with no listener is dropped.
    pub fn event(&mut self, channel_id: i64, closed: &Vec<u64>) -> (r: Vec<u64>)
        requires
            old(self).wf(),
        ensures
            final(self).wf(),
            r@ == still_open(channel_listeners(old(self)@, channel_id), closed@),
            final(self)@ == if !old(self)@.contains_key(channel_id) {
                old(self)@
            } else if r@.len() == 0 {
                old(self)@.remove(channel_id)
            } else {
                old(self)@.insert(channel_id, r@)
            },
    {
        let ghost before = self@;
        match self.map.remove(&channel_id) {
            Some(list) => {
                let mut kept: Vec<u64> = Vec::new();
                let mut i: usize = 0;
                while i < list.len()
                    invariant
                        i <= list.len(),
                        kept@ == still_open(list@.take(i as int), closed@),
                    decreases list.len() - i,
                {
                    let id = list[i];
                    let mut found = false;
                    let mut j: usize = 0;
                    while j < closed.len()
                        invariant
                            j <= closed.len(),
                            found <==> closed@.take(j as int).contains(id),
                        decreases closed.len() - j,
                    {
                        proof {
                            assert(closed@.take(j + 1) =~= closed@.take(j as int).push(closed@[j as int]));
                            lemma_contains_push(closed@.take(j as int), closed@[j as int], id);
                        }
                        if closed[j] == id {
                            found = true;
                        }
                        j = j + 1;
                    }
                    proof {
                        assert(closed@.take(closed.len() as int) =~= closed@);
                        assert(list@.take(i + 1).drop_last() =~= list@.take(i as int));
                    }
                    if !found {
                        kept.push(id);
                    }
                    i = i + 1;
                }
                proof {
                    assert(list@.take(list.len() as int) =~= list@);
                }
                if kept.len() > 0 {
                    self.map.insert(channel_id, kept.clone());
                    assert(self@ =~= before.insert(channel_id, kept@));
                } else {
                    assert(self@ =~= before.remove(channel_id));
                }
                kept
            },
            None => {
                assert(self@ =~= before);
                Vec::new()
            },
        }
    }
}

impl Default for EventThing {
    /// A registry with no listener.
    fn default() -> (r: Self)
        ensures
            r.wf(),
            r@ == Map::<i64, Seq<u64>>::empty(),
    {
        EventThing::new()
    }
}

/// `s.push(x)` holds `y` exactly when `s` does or `y` is `x`.
pub proof fn lemma_contains_push(s: Seq<u64>, x: u64, y: u64)
    ensures
        s.push(x).contains(y) <==> s.contains(y) || x == y,
{
    let t = s.push(x);
    if t.contains(y) {
        let j = choose|j: int| 0 <= j < t.len() && t[j] == y;
        if j < s.len() {
            assert(s[j] == y);
        }
    }
    if s.contains(y) {
        let j = choose|j: int| 0 <= j < s.len() && s[j] == y;
        assert(t[j] == y);
    }
    if x == y {
        assert(t[s.len() as int] == y);
    }
}

/// One step of a chat's stream for `user_id`: the user's own departure ends
/// the stream, as does the end of the channel; any other event is passed on.
pub fn chat_stream_step(event: Option<ChatEvent>, user_id: i64) -> (r: Option<ChatEvent>)
    ensures
        r == if event == Some(ChatEvent::UserLeft(user_id)) {
            None
        } else {
            event
        },
{
    match event {
        Some(ChatEvent::UserLeft(uid)) => {
            if uid == user_id {
                None
            } else {
                Some(ChatEvent::UserLeft(uid))
            }
        },
        other => other,
    }
}

/// Whether a user's stream opens, given how many rows the statement that marks
/// the user online changed (none when it failed): the stream opens once the
/// user's row is marked online, that is when exactly one row changed. The user
/// is marked offline again when the stream ends.
pub fn user_stream_opens(updated: Option<usize>) -> (r: bool)
    ensures
        r == (updated == Some(1usize)),
{
    match updated {
        Some(n) => n == 1,
        None => false,
    }
}

/// Whether a chat's stream opens, given the lookup of the caller's member row
/// in that chat: only a member gets the stream; a missing row or any other
/// error ends it before it starts.
pub fn chat_stream_opens(found: Result<i64, DbFailure>) -> (r: bool)
    ensures
        r == found is Ok,
{
    match found {
        Ok(_) => true,
        Err(_) => false,
    }
}

/// When no stream has closed, an event reaches every listener, in order.
pub proof fn law_nobody_closed_everyone_hears(s: Seq<u64>, closed: Seq<u64>)
    requires
        forall|i: int| 0 <= i < s.len() ==> !closed.contains(#[trigger] s[i]),
    ensures
        still_open(s, closed) == s,
    decreases s.len(),
{
    if s.len() > 0 {
        law_nobody_closed_everyone_hears(s.drop_last(), closed);
        assert(s.drop_last().push(s.last()) =~= s);
    }
}

/// A listener that has just joined hears the next event, after everyone who
/// joined before it, unless its stream has already closed.
pub proof fn law_new_listener_hears_next(s: Seq<u64>, closed: Seq<u64>, listener: u64)
    requires
        !closed.contains(listener),
    ensures
        still_open(s.push(listener), closed) == still_open(s, closed).push(listener),
{
    assert(s.push(listener).drop_last() =~= s);
}

/// A listener whose stream has closed hears nothing more, and one whose stream
/// is open keeps hearing.
pub proof fn law_closed_listeners_are_dropped(s: Seq<u64>, closed: Seq<u64>, listener: u64)
    ensures
        closed.contains(listener) ==> !still_open(s, closed).contains(listener),
        s.contains(listener) && !closed.contains(listener) ==> still_open(s, closed).contains(
            listener,
        ),
    decreases s.len(),
{
    if s.len() > 0 {
        let init = s.drop_last();
        law_closed_listeners_are_dropped(init, closed, listener);
        let rest = still_open(init, closed);
        lemma_contains_push(rest, s.last(), listener);
        if s.contains(listener) && s.last() != listener {
            let j = choose|j: int| 0 <= j < s.len() && s[j] == listener;
            assert(init[j] == listener);
        }
    }
}

} // verus!
