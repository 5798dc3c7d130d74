//! A small store keyed by player: the longer-lived tier of records that
//! outlasts a session.

use crate::player::PlayerId;
use vstd::prelude::*;

verus! {

/// Whether no key occurs twice among `entries`.
pub open spec fn distinct_keys<V>(entries: Seq<(PlayerId, V)>) -> bool {
    forall|i: int, j: int|
        0 <= i < j < entries.len() ==> (#[trigger] entries[i]).0@ != (#[trigger] entries[j]).0@
}

/// Whether some entry is stored under `key`.
pub open spec fn has_key<V>(entries: Seq<(PlayerId, V)>, key: Seq<char>) -> bool {
    exists|i: int| 0 <= i < entries.len() && (#[trigger] entries[i]).0@ == key
}

/// The position of an entry stored under `key`.
pub open spec fn slot_of<V>(entries: Seq<(PlayerId, V)>, key: Seq<char>) -> int {
    choose|i: int| 0 <= i < entries.len() && (#[trigger] entries[i]).0@ == key
}

/// The map that `entries` stand for.
pub open spec fn as_map<V>(entries: Seq<(PlayerId, V)>) -> Map<Seq<char>, V> {
    Map::new(|key: Seq<char>| has_key(entries, key), |key: Seq<char>| entries[slot_of(entries, key)].1)
}

/// With distinct keys, an entry's key leads back to its position.
pub proof fn lemma_slot_found<V>(entries: Seq<(PlayerId, V)>, i: int)
    requires
        distinct_keys(entries),
        0 <= i < entries.len(),
    ensures
        has_key(entries, entries[i].0@),
        slot_of(entries, entries[i].0@) == i,
        as_map(entries).dom().contains(entries[i].0@),
        as_map(entries)[entries[i].0@] == entries[i].1,
{
    let key = entries[i].0@;
    let j = slot_of(entries, key);
    assert(0 <= j < entries.len() && entries[j].0@ == key);
    if j < i {
        assert(entries[j].0@ != entries[i].0@);
    } else if i < j {
        assert(entries[i].0@ != entries[j].0@);
    }
}

/// Appending an entry under a new key inserts it into the map.
pub proof fn lemma_push_inserts<V>(entries: Seq<(PlayerId, V)>, key: PlayerId, value: V)
    requires
        distinct_keys(entries),
        !has_key(entries, key@),
    ensures
        distinct_keys(entries.push((key, value))),
        as_map(entries.push((key, value))) == as_map(entries).insert(key@, value),
{
    let after = entries.push((key, value));
    assert(distinct_keys(after)) by {
        assert forall|i: int, j: int| 0 <= i < j < after.len() implies (#[trigger] after[i]).0@
            != (#[trigger] after[j]).0@ by {
            if j < entries.len() {
                assert(entries[i].0@ != entries[j].0@);
            } else {
                assert(entries[i].0@ != key@);
            }
        }
    }
    assert forall|k: Seq<char>| #[trigger]
        as_map(after).dom().contains(k) == as_map(entries).insert(key@, value).dom().contains(
            k,
        ) by {
        if has_key(after, k) {
            let i = slot_of(after, k);
            if i < entries.len() {
                assert(entries[i].0@ == k);
            }
        }
        if has_key(entries, k) {
            let i = slot_of(entries, k);
            assert(after[i].0@ == k);
        }
        if k == key@ {
            assert(after[entries.len() as int].0@ == k);
        }
    }
    assert forall|k: Seq<char>| #[trigger]
        as_map(after).dom().contains(k) implies as_map(after)[k] == as_map(entries).insert(
        key@,
        value,
    )[k] by {
        if k == key@ {
            lemma_slot_found(after, entries.len() as int);
        } else {
            let i = slot_of(entries, k);
            assert(after[i] == entries[i]);
            lemma_slot_found(after, i);
        }
    }
    assert(as_map(after) =~= as_map(entries).insert(key@, value));
}

/// Replacing the value of an entry, under the same key, inserts it into the
/// map.
pub proof fn lemma_update_inserts<V>(
    entries: Seq<(PlayerId, V)>,
    i: int,
    key: PlayerId,
    value: V,
)
    requires
        distinct_keys(entries),
        0 <= i < entries.len(),
        entries[i].0@ == key@,
    ensures
        distinct_keys(entries.update(i, (key, value))),
        as_map(entries.update(i, (key, value))) == as_map(entries).insert(key@, value),
{
    let after = entries.update(i, (key, value));
    assert(distinct_keys(after)) by {
        assert forall|a: int, b: int| 0 <= a < b < after.len() implies (#[trigger] after[a]).0@
            != (#[trigger] after[b]).0@ by {
            assert(after[a].0@ == entries[a].0@);
            assert(after[b].0@ == entries[b].0@);
        }
    }
    assert forall|k: Seq<char>| #[trigger]
        as_map(after).dom().contains(k) == as_map(entries).insert(key@, value).dom().contains(
            k,
        ) by {
        if has_key(after, k) {
            let a = slot_of(after, k);
            assert(entries[a].0@ == k);
        }
        if has_key(entries, k) {
            let a = slot_of(entries, k);
            assert(after[a].0@ == k);
        }
        if k == key@ {
            assert(after[i].0@ == k);
        }
    }
    assert forall|k: Seq<char>| #[trigger]
        as_map(after).dom().contains(k) implies as_map(after)[k] == as_map(entries).insert(
        key@,
        value,
    )[k] by {
        if k == key@ {
            lemma_slot_found(after, i);
        } else {
            let a = slot_of(entries, k);
            assert(entries[a].0@ == k);
            assert(after[a] == entries[a]);
            lemma_slot_found(after, a);
        }
    }
    assert(as_map(after) =~= as_map(entries).insert(key@, value));
}

/// Taking an entry out removes its key from the map.
pub proof fn lemma_remove_removes<V>(entries: Seq<(PlayerId, V)>, i: int)
    requires
        distinct_keys(entries),
        0 <= i < entries.len(),
    ensures
        distinct_keys(entries.remove(i)),
        as_map(entries.remove(i)) == as_map(entries).remove(entries[i].0@),
{
    let after = entries.remove(i);
    let key = entries[i].0@;
    assert forall|a: int| 0 <= a < after.len() implies #[trigger] after[a] == entries[if a < i {
        a
    } else {
        a + 1
    }] by {}
    assert(distinct_keys(after)) by {
        assert forall|a: int, b: int| 0 <= a < b < after.len() implies (#[trigger] after[a]).0@
            != (#[trigger] after[b]).0@ by {
            let a0 = if a < i { a } else { a + 1 };
            let b0 = if b < i { b } else { b + 1 };
            assert(after[a] == entries[a0]);
            assert(after[b] == entries[b0]);
            assert(entries[a0].0@ != entries[b0].0@);
        }
    }
    assert forall|k: Seq<char>| #[trigger]
        as_map(after).dom().contains(k) == as_map(entries).remove(key).dom().contains(k) by {
        if has_key(after, k) {
            let a = slot_of(after, k);
            let a0 = if a < i { a } else { a + 1 };
            assert(after[a] == entries[a0]);
            assert(entries[a0].0@ == k);
            if a0 < i {
                assert(entries[a0].0@ != entries[i].0@);
            } else {
                assert(entries[i].0@ != entries[a0].0@);
            }
        }
        if has_key(entries, k) && k != key {
            let a0 = slot_of(entries, k);
            let a = if a0 < i { a0 } else { a0 - 1 };
            assert(after[a] == entries[a0]);
            assert(after[a].0@ == k);
        }
    }
    assert forall|k: Seq<char>| #[trigger]
        as_map(after).dom().contains(k) implies as_map(after)[k] == as_map(entries).remove(
        key,
    )[k] by {
        let a0 = slot_of(entries, k);
        assert(entries[a0].0@ == k);
        let a = if a0 < i { a0 } else { a0 - 1 };
        assert(after[a] == entries[a0]);
        lemma_slot_found(after, a);
    }
    assert(as_map(after) =~= as_map(entries).remove(key));
}

/// Records keyed by player, at most one per player.
pub struct PlayerMap<V> {
    entries: Vec<(PlayerId, V)>,
}

impl<V> View for PlayerMap<V> {
    type V = Map<Seq<char>, V>;

    closed spec fn view(&self) -> Map<Seq<char>, V> {
        as_map(self.entries@)
    }
}

impl<V> PlayerMap<V> {
    #[verifier::type_invariant]
    spec fn well_formed(&self) -> bool {
        distinct_keys(self.entries@)
    }

    /// A store without records.
    pub fn new() -> (store: PlayerMap<V>)
        ensures
            store@ == Map::<Seq<char>, V>::empty(),
    {
        let store = PlayerMap { entries: Vec::new() };
        assert(store@ =~= Map::<Seq<char>, V>::empty());
        store
    }

    fn find(&self, key: &PlayerId) -> (found: Option<usize>)
        ensures
            match found {
                Some(i) => i < self.entries.len() && self.entries[i as int].0@ == key@,
                None => !has_key(self.entries@, key@),
            },
    {
        let mut i: usize = 0;
        while i < self.entries.len()
            invariant
                i <= self.entries.len(),
                forall|j: int| 0 <= j < i ==> (#[trigger] self.entries[j]).0@ != key@,
            decreases self.entries.len() - i,
        {
            if self.entries[i].0.same(key) {
                return Some(i);
            }
            i = i + 1;
        }
        None
    }

    /// The record stored for `key`, if there is one.
    pub fn get(&self, key: &PlayerId) -> (record: Option<&V>)
        ensures
            match record {
                Some(value) => self@.dom().contains(key@) && self@[key@] == *value,
                None => !self@.dom().contains(key@),
            },
    {
        match self.find(key) {
            Some(i) => {
                proof {
                    use_type_invariant(self);
                    lemma_slot_found(self.entries@, i as int);
                }
                Some(&self.entries[i].1)
            },
            None => None,
        }
    }

    /// Stores `value` for `key`, in place of any record stored before.
    pub fn insert(&mut self, key: PlayerId, value: V)
        ensures
            final(self)@ == old(self)@.insert(key@, value),
    {
        proof {
            use_type_invariant(&*self);
        }
        let found = self.find(&key);
        let mut entries: Vec<(PlayerId, V)> = Vec::new();
        core::mem::swap(&mut self.entries, &mut entries);
        match found {
            Some(i) => {
                proof {
                    lemma_update_inserts(entries@, i as int, key, value);
                }
                entries.set(i, (key, value));
            },
            None => {
                proof {
                    lemma_push_inserts(entries@, key, value);
                }
                entries.push((key, value));
            },
        }
        self.entries = entries;
    }

    /// Takes the record of `key` out of the store.
    pub fn take(&mut self, key: &PlayerId) -> (record: Option<V>)
        ensures
            final(self)@ == old(self)@.remove(key@),
            match record {
                Some(value) => old(self)@.dom().contains(key@) && old(self)@[key@] == value,
                None => !old(self)@.dom().contains(key@),
            },
    {
        proof {
            use_type_invariant(&*self);
        }
        match self.find(key) {
            Some(i) => {
                proof {
                    lemma_slot_found(self.entries@, i as int);
                    lemma_remove_removes(self.entries@, i as int);
                }
                let mut entries: Vec<(PlayerId, V)> = Vec::new();
                core::mem::swap(&mut self.entries, &mut entries);
                let entry = entries.remove(i);
                self.entries = entries;
                Some(entry.1)
            },
            None => {
                assert(old(self)@.remove(key@) =~= old(self)@);
                None
            },
        }
    }
}

} // verus!
