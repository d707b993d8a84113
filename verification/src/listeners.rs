//! A registry from a key (a user or a chat) to the set of live sessions that
//! listen to it. Keys with no listener are never kept.

use std::collections::{HashMap, HashSet};
use vstd::prelude::*;
use vstd::std_specs::iter::IteratorSpec;

verus! {

broadcast use vstd::std_specs::hash::group_hash_axioms;

/// Listener sets by key; no key maps to an empty set.
pub struct Listeners {
    map: HashMap<i64, HashSet<u64>>,
}

impl View for Listeners {
    type V = Map<i64, Set<u64>>;

    closed spec fn view(&self) -> Map<i64, Set<u64>> {
        Map::new(|k: i64| self.map@.contains_key(k), |k: i64| self.map@[k]@)
    }
}

/// Whether `id` listens to `key` in the registry `l`.
pub open spec fn listed(l: Map<i64, Set<u64>>, key: i64, id: u64) -> bool {
    l.contains_key(key) && l[key].contains(id)
}

/// No key of the registry is kept with an empty set, and every set is finite.
pub open spec fn no_empty_entries(l: Map<i64, Set<u64>>) -> bool {
    forall|k: i64| #[trigger] l.contains_key(k) ==> !l[k].is_empty() && l[k].finite()
}

/// What `listen` makes of a registry.
pub open spec fn with_listener(l: Map<i64, Set<u64>>, key: i64, id: u64) -> Map<i64, Set<u64>> {
    if l.contains_key(key) {
        l.insert(key, l[key].insert(id))
    } else {
        l.insert(key, set![id])
    }
}

/// What `remove` makes of a registry: the key goes once its set is empty.
pub open spec fn without_listener(l: Map<i64, Set<u64>>, key: i64, id: u64) -> Map<i64, Set<u64>> {
    if l.contains_key(key) {
        if l[key].remove(id).is_empty() {
            l.remove(key)
        } else {
            l.insert(key, l[key].remove(id))
        }
    } else {
        l
    }
}

/// The listeners of `key`, or none.
pub open spec fn listeners_of(l: Map<i64, Set<u64>>, key: i64) -> Set<u64> {
    if l.contains_key(key) {
        l[key]
    } else {
        Set::empty()
    }
}

impl Listeners {
    /// The registry's well-formedness: no empty entry.
    pub open spec fn wf(&self) -> bool {
        no_empty_entries(self@)
    }

    /// An empty registry.
    pub fn new() -> (r: Self)
        ensures
            r.wf(),
            r@ == Map::<i64, Set<u64>>::empty(),
    {
        let r = Listeners { map: HashMap::new() };
        assert(r@ =~= Map::<i64, Set<u64>>::empty());
        r
    }

    /// Registers `id` as a listener of `key`.
    pub fn listen(&mut self, key: i64, id: u64)
        requires
            old(self).wf(),
        ensures
            final(self).wf(),
            final(self)@ == with_listener(old(self)@, key, id),
            forall|k: i64, s: u64|
                #[trigger] listed(final(self)@, k, s) <==> listed(old(self)@, k, s) || (k == key && s
                    == id),
    {
        let ghost before = self@;
        let mut set = match self.map.remove(&key) {
            Some(s) => s,
            None => HashSet::new(),
        };
        set.insert(id);
        self.map.insert(key, set);
        assert(self@ =~= with_listener(before, key, id));
    }

    /// Drops `id` from the listeners of `key`, and `key` with it once no
    /// listener is left.
    pub fn remove(&mut self, key: i64, id: u64)
        requires
            old(self).wf(),
        ensures
            final(self).wf(),
            final(self)@ == without_listener(old(self)@, key, id),
            forall|k: i64, s: u64|
                #[trigger] listed(final(self)@, k, s) <==> listed(old(self)@, k, s) && !(k == key && s
                    == id),
    {
        let ghost before = self@;
        match self.map.remove(&key) {
            Some(mut set) => {
                set.remove(&id);
                if !set.is_empty() {
                    self.map.insert(key, set);
                }
            },
            None => {},
        }
        assert(self@ =~= without_listener(before, key, id));
    }

    /// Drops `id` from the listeners of every key in `keys`.
    pub fn remove_from_all(&mut self, keys: &HashSet<i64>, id: u64)
        requires
            old(self).wf(),
        ensures
            final(self).wf(),
            forall|k: i64, s: u64|
                #[trigger] listed(final(self)@, k, s) <==> listed(old(self)@, k, s) && !(s == id
                    && keys@.contains(k)),
    {
        let ghost start = self@;
        let ghost all = vstd::std_specs::hash::spec_hash_keys_iter(keys).remaining().unref();
        for key in it: keys.iter()
            invariant
                it.seq().unref() == all,
                self.wf(),
                forall|k: i64, s: u64|
                    #[trigger] listed(self@, k, s) <==> listed(start, k, s) && !(s == id && all.take(
                        it.index(),
                    ).contains(k)),
            ensures
                self.wf(),
                forall|k: i64, s: u64|
                    #[trigger] listed(self@, k, s) <==> listed(start, k, s) && !(s == id
                        && all.take(all.len() as int).contains(k)),
        {
            let ghost i = it.index();
            proof {
                assert(*key == all[i]);
            }
            self.remove(*key, id);
            proof {
                assert forall|k: i64, s: u64|
                    #[trigger] listed(self@, k, s) <==> listed(start, k, s) && !(s == id && all.take(
                        i + 1,
                    ).contains(k)) by {
                    let longer = all.take(i + 1);
                    let shorter = all.take(i);
                    if longer.contains(k) {
                        let j = choose|j: int| 0 <= j < longer.len() && longer[j] == k;
                        if j < i {
                            assert(shorter[j] == k);
                        }
                    }
                    if shorter.contains(k) {
                        let j = choose|j: int| 0 <= j < shorter.len() && shorter[j] == k;
                        assert(longer[j] == k);
                    }
                    if k == all[i] {
                        assert(longer[i] == k);
                    }
                }
            }
        }
        proof {
            assert(all.take(all.len() as int) =~= all);
            assert forall|k: i64| all.contains(k) <==> keys@.contains(k) by {
                if all.contains(k) {
                    assert(all.to_set().contains(k));
                }
                if keys@.contains(k) {
                    assert(all.to_set().contains(k));
                }
            }
        }
    }

    /// The listeners of `key`, each once, in no particular order.
    pub fn members(&self, key: i64) -> (r: Vec<u64>)
        ensures
            r@.no_duplicates(),
            r@.to_set() == listeners_of(self@, key),
    {
        let mut r: Vec<u64> = Vec::new();
        match self.map.get(&key) {
            Some(set) => {
                let ghost keys = vstd::std_specs::hash::spec_hash_keys_iter(set).remaining().unref();
                for id in it: set.iter()
                    invariant
                        it.seq().unref() == keys,
                        r@.len() == it.index(),
                        forall|i: int| 0 <= i < it.index() ==> r@[i] == keys[i],
                    ensures
                        r@ == keys,
                {
                    r.push(*id);
                }
            },
            None => {
                assert(r@.to_set() =~= Set::<u64>::empty());
            },
        }
        r
    }
}

impl Default for Listeners {
    /// An empty registry.
    fn default() -> (r: Self)
        ensures
            r.wf(),
            r@ == Map::<i64, Set<u64>>::empty(),
    {
        Listeners::new()
    }
}

} // verus!
