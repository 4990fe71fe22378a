//! A small map from text keys to values that remembers the order in which
//! its keys first arrived. It stands wherever the pipeline keeps values by
//! name: request parameters, the latest reading of each device, named
//! subscriptions.
//!
//! A hash map keyed by `String` would do the same work, but nothing can be
//! proved of one: its specification holds only for keys whose hashing is
//! known to agree with their equality, and that is known of integers, not
//! of strings. A list without repeated keys needs no such knowledge, and it
//! can be walked in a fixed order.

use vstd::prelude::*;

verus! {

/// No key stands at two positions.
pub open spec fn distinct_keys<V>(entries: Seq<(Seq<char>, V)>) -> bool {
    forall|i: int, j: int|
        0 <= i < j < entries.len() ==> (#[trigger] entries[i]).0 != (#[trigger] entries[j]).0
}

/// Some entry stands under `key`.
pub open spec fn has_key<V>(entries: Seq<(Seq<char>, V)>, key: Seq<char>) -> bool {
    exists|i: int| 0 <= i < entries.len() && (#[trigger] entries[i]).0 == key
}

/// A position at which `key` stands (the only one, where keys are distinct).
pub open spec fn index_of<V>(entries: Seq<(Seq<char>, V)>, key: Seq<char>) -> int {
    choose|i: int| 0 <= i < entries.len() && (#[trigger] entries[i]).0 == key
}

/// Where keys are distinct, the position of a key is the one position at
/// which it stands.
pub proof fn lemma_index_of<V>(entries: Seq<(Seq<char>, V)>, key: Seq<char>, at: int)
    requires
        distinct_keys(entries),
        0 <= at < entries.len(),
        entries[at].0 == key,
    ensures
        has_key(entries, key),
        index_of(entries, key) == at,
{
    let chosen = index_of(entries, key);
    if chosen < at {
        assert(entries[chosen].0 != entries[at].0);
    }
    if at < chosen {
        assert(entries[at].0 != entries[chosen].0);
    }
}

/// The entries after `value` was stored under `key`: an entry already under
/// that key keeps its place and takes the new value, a new key goes last.
pub open spec fn upsert<V>(entries: Seq<(Seq<char>, V)>, key: Seq<char>, value: V) -> Seq<
    (Seq<char>, V),
> {
    if has_key(entries, key) {
        entries.update(index_of(entries, key), (key, value))
    } else {
        entries.push((key, value))
    }
}

/// The map that a list of entries with distinct keys stands for.
pub open spec fn as_map<V>(entries: Seq<(Seq<char>, V)>) -> Map<Seq<char>, V> {
    Map::new(
        |key: Seq<char>| has_key(entries, key),
        |key: Seq<char>| entries[index_of(entries, key)].1,
    )
}

/// Storing under a key changes the map at that key and nowhere else.
pub proof fn lemma_upsert_is_insert<V>(entries: Seq<(Seq<char>, V)>, key: Seq<char>, value: V)
    requires
        distinct_keys(entries),
    ensures
        distinct_keys(upsert(entries, key, value)),
        as_map(upsert(entries, key, value)) == as_map(entries).insert(key, value),
        upsert(entries, key, value).len() == entries.len() + if has_key(entries, key) {
            0int
        } else {
            1int
        },
{
    let after = upsert(entries, key, value);
    let at = if has_key(entries, key) {
        index_of(entries, key)
    } else {
        entries.len() as int
    };
    assert(0 <= at < after.len() && after[at] == (key, value));
    assert forall|i: int| 0 <= i < after.len() && i != at implies #[trigger] after[i]
        == entries[i] && entries[i].0 != key by {
        if has_key(entries, key) {
            if i < at {
                assert(entries[i].0 != entries[at].0);
            } else {
                assert(entries[at].0 != entries[i].0);
            }
        }
    }
    assert(distinct_keys(after)) by {
        assert forall|i: int, j: int| 0 <= i < j < after.len() implies (#[trigger] after[i]).0 != (
        #[trigger] after[j]).0 by {
            if i != at && j != at {
                assert(entries[i].0 != entries[j].0);
            }
        }
    }
    assert forall|k: Seq<char>| has_key(after, k) <==> (k == key || has_key(entries, k)) by {
        if has_key(after, k) {
            let i = index_of(after, k);
            if i != at {
                assert(entries[i].0 == k);
            }
        }
        if k == key {
            assert(after[at].0 == k);
        } else if has_key(entries, k) {
            let i = index_of(entries, k);
            assert(after[i].0 == k);
        }
    }
    assert forall|k: Seq<char>| has_key(after, k) implies #[trigger] as_map(after)[k] == as_map(
        entries,
    ).insert(key, value)[k] by {
        let i = index_of(after, k);
        if k == key {
            lemma_index_of(after, key, at);
        } else {
            assert(after[i] == entries[i]);
            lemma_index_of(entries, k, i);
        }
    }
    assert(as_map(after) =~= as_map(entries).insert(key, value));
}

/// A list of entries with distinct keys stands for a map of as many keys.
pub proof fn lemma_as_map_size<V>(entries: Seq<(Seq<char>, V)>)
    requires
        distinct_keys(entries),
    ensures
        as_map(entries).dom().finite(),
        as_map(entries).dom().len() == entries.len(),
    decreases entries.len(),
{
    if entries.len() == 0 {
        assert(as_map(entries).dom() =~= Set::<Seq<char>>::empty());
    } else {
        let rest = entries.drop_last();
        let last = entries.last();
        assert forall|i: int, j: int| 0 <= i < j < rest.len() implies (#[trigger] rest[i]).0 != (
        #[trigger] rest[j]).0 by {
            assert(entries[i].0 != entries[j].0);
        }
        lemma_as_map_size(rest);
        assert(!has_key(rest, last.0)) by {
            if has_key(rest, last.0) {
                let i = index_of(rest, last.0);
                assert(entries[i].0 != entries[entries.len() - 1].0);
            }
        }
        assert(upsert(rest, last.0, last.1) =~= entries);
        lemma_upsert_is_insert(rest, last.0, last.1);
        assert(as_map(entries).dom() =~= as_map(rest).dom().insert(last.0));
    }
}

/// A map from text to `V`, kept as a list without repeated keys.
pub struct TextMap<V> {
    entries: Vec<(String, V)>,
}

impl<V> View for TextMap<V> {
    type V = Map<Seq<char>, V>;

    open spec fn view(&self) -> Map<Seq<char>, V> {
        as_map(self.entries())
    }
}

impl<V> TextMap<V> {
    /// The entries in the order in which their keys first arrived.
    pub closed spec fn entries(&self) -> Seq<(Seq<char>, V)> {
        self.entries@.map_values(|e: (String, V)| (e.0@, e.1))
    }

    /// Every map made by this module is well formed: no key occurs twice.
    pub open spec fn wf(&self) -> bool {
        distinct_keys(self.entries())
    }

    /// An empty map.
    pub fn new() -> (map: Self)
        ensures
            map.wf(),
            map.entries() == Seq::<(Seq<char>, V)>::empty(),
            map@ == Map::<Seq<char>, V>::empty(),
    {
        let map = TextMap { entries: Vec::new() };
        assert(map.entries() =~= Seq::<(Seq<char>, V)>::empty());
        assert(map@ =~= Map::<Seq<char>, V>::empty());
        map
    }

    /// How many keys the map holds.
    pub fn len(&self) -> (n: usize)
        ensures
            n == self.entries().len(),
    {
        self.entries.len()
    }

    /// Whether the map holds nothing.
    pub fn is_empty(&self) -> (empty: bool)
        ensures
            empty <==> self.entries().len() == 0,
            empty <==> self@ == Map::<Seq<char>, V>::empty(),
    {
        let empty = self.entries.len() == 0;
        proof {
            if empty {
                assert(self@ =~= Map::<Seq<char>, V>::empty());
            } else {
                let first = self.entries()[0];
                assert(has_key(self.entries(), first.0));
                assert(self@.dom().contains(first.0));
            }
        }
        empty
    }

    /// The key at a position.
    pub fn key_at(&self, i: usize) -> (key: &String)
        requires
            i < self.entries().len(),
        ensures
            key@ == self.entries()[i as int].0,
    {
        &self.entries[i].0
    }

    /// The value at a position.
    pub fn value_at(&self, i: usize) -> (value: &V)
        requires
            i < self.entries().len(),
        ensures
            *value == self.entries()[i as int].1,
    {
        &self.entries[i].1
    }

    /// The value stored under `key`, if any.
    pub fn get(&self, key: &str) -> (found: Option<&V>)
        requires
            self.wf(),
        ensures
            found == if self@.dom().contains(key@) {
                Some(&self@[key@])
            } else {
                None
            },
    {
        let wanted = key.to_owned();
        let mut i: usize = 0;
        while i < self.entries.len()
            invariant
                i <= self.entries.len(),
                wanted@ == key@,
                distinct_keys(self.entries()),
                forall|j: int| 0 <= j < i ==> (#[trigger] self.entries()[j]).0 != key@,
            decreases self.entries.len() - i,
        {
            if self.entries[i].0 == wanted {
                proof {
                    lemma_index_of(self.entries(), key@, i as int);
                }
                return Some(&self.entries[i].1);
            }
            i += 1;
        }
        None
    }

    /// Stores `value` under `key`, in place of what was there.
    pub fn insert(&mut self, key: String, value: V)
        requires
            old(self).wf(),
        ensures
            final(self).wf(),
            final(self).entries() == upsert(old(self).entries(), key@, value),
            final(self)@ == old(self)@.insert(key@, value),
    {
        let mut i: usize = 0;
        while i < self.entries.len()
            invariant
                i <= self.entries.len(),
                *self == *old(self),
                distinct_keys(self.entries()),
                forall|j: int| 0 <= j < i ==> (#[trigger] self.entries()[j]).0 != key@,
            decreases self.entries.len() - i,
        {
            if self.entries[i].0 == key {
                proof {
                    lemma_index_of(self.entries(), key@, i as int);
                    assert(self.entries@.update(i as int, (key, value)).map_values(
                        |e: (String, V)| (e.0@, e.1),
                    ) =~= upsert(self.entries(), key@, value));
                    lemma_upsert_is_insert(self.entries(), key@, value);
                }
                self.entries.set(i, (key, value));
                return ;
            }
            i += 1;
        }
        proof {
            assert(!has_key(self.entries(), key@));
            assert(self.entries@.push((key, value)).map_values(|e: (String, V)| (e.0@, e.1))
                =~= upsert(self.entries(), key@, value));
            lemma_upsert_is_insert(self.entries(), key@, value);
        }
        self.entries.push((key, value));
    }
}

impl Clone for TextMap<String> {
    fn clone(&self) -> (copy: Self)
        ensures
            copy.entries() == self.entries(),
            copy@ == self@,
            copy.wf() == self.wf(),
    {
        let mut entries: Vec<(String, String)> = Vec::new();
        let mut i: usize = 0;
        while i < self.entries.len()
            invariant
                i <= self.entries.len(),
                entries@ == self.entries@.take(i as int),
            decreases self.entries.len() - i,
        {
            let key = self.entries[i].0.clone();
            let value = self.entries[i].1.clone();
            entries.push((key, value));
            assert(entries@ =~= self.entries@.take(i + 1));
            i += 1;
        }
        assert(entries@ =~= self.entries@);
        TextMap { entries }
    }
}

} // verus!
