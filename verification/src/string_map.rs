//! A map keyed by strings, kept as a list of entries whose keys are pairwise
//! distinct. Its meaning is a `Map` from the characters of each key to the value
//! stored under it.

use vstd::prelude::*;

verus! {

/// The map that a list of entries denotes: each entry adds its key, and a later
/// entry for the same key replaces an earlier one.
pub open spec fn entries_to_map<V>(entries: Seq<(String, V)>) -> Map<Seq<char>, V>
    decreases entries.len(),
{
    if entries.len() == 0 {
        Map::empty()
    } else {
        entries_to_map(entries.drop_last()).insert(entries.last().0@, entries.last().1)
    }
}

/// No two entries carry keys with the same characters.
pub open spec fn keys_distinct<V>(entries: Seq<(String, V)>) -> bool {
    forall|i: int, j: int| 0 <= i < j < entries.len() ==> entries[i].0@ != entries[j].0@
}

/// A key is in the denoted map exactly when some entry carries it.
pub proof fn lemma_entries_contain<V>(entries: Seq<(String, V)>, key: Seq<char>)
    ensures
        entries_to_map(entries).contains_key(key) <==> exists|i: int|
            0 <= i < entries.len() && #[trigger] entries[i].0@ == key,
    decreases entries.len(),
{
    if entries.len() > 0 {
        let rest = entries.drop_last();
        lemma_entries_contain(rest, key);
        if entries_to_map(rest).contains_key(key) {
            let i = choose|i: int| 0 <= i < rest.len() && #[trigger] rest[i].0@ == key;
            assert(entries[i].0@ == key);
        }
        if exists|i: int| 0 <= i < entries.len() && #[trigger] entries[i].0@ == key {
            let i = choose|i: int| 0 <= i < entries.len() && #[trigger] entries[i].0@ == key;
            if i < entries.len() - 1 {
                assert(rest[i].0@ == key);
            }
        }
    }
}

/// With distinct keys, the map holds each entry's value under its key.
pub proof fn lemma_entry_value<V>(entries: Seq<(String, V)>, i: int)
    requires
        keys_distinct(entries),
        0 <= i < entries.len(),
    ensures
        entries_to_map(entries).contains_key(entries[i].0@),
        entries_to_map(entries)[entries[i].0@] == entries[i].1,
    decreases entries.len(),
{
    if i < entries.len() - 1 {
        let rest = entries.drop_last();
        lemma_entry_value(rest, i);
        assert(rest[i] == entries[i]);
    }
}

/// Appending an entry inserts its key and value.
pub proof fn lemma_push_entry<V>(entries: Seq<(String, V)>, entry: (String, V))
    ensures
        entries_to_map(entries.push(entry)) == entries_to_map(entries).insert(entry.0@, entry.1),
{
    assert(entries.push(entry).drop_last() =~= entries);
}

/// Replacing an entry by one with a key of the same characters replaces the value
/// stored under that key.
pub proof fn lemma_replace_entry<V>(entries: Seq<(String, V)>, i: int, entry: (String, V))
    requires
        keys_distinct(entries),
        0 <= i < entries.len(),
        entry.0@ == entries[i].0@,
    ensures
        entries_to_map(entries.update(i, entry)) == entries_to_map(entries).insert(entry.0@, entry.1),
    decreases entries.len(),
{
    let rest = entries.drop_last();
    let updated = entries.update(i, entry);
    if i == entries.len() - 1 {
        assert(updated.drop_last() =~= rest);
        assert(entries_to_map(updated) =~= entries_to_map(entries).insert(entry.0@, entry.1));
    } else {
        assert(updated.drop_last() =~= rest.update(i, entry));
        lemma_replace_entry(rest, i, entry);
        assert(entries[i].0@ != entries.last().0@);
        assert(entries_to_map(updated) =~= entries_to_map(entries).insert(entry.0@, entry.1));
    }
}

/// With distinct keys, the map has as many keys as there are entries.
pub proof fn lemma_entries_len<V>(entries: Seq<(String, V)>)
    requires
        keys_distinct(entries),
    ensures
        entries_to_map(entries).dom().finite(),
        entries_to_map(entries).dom().len() == entries.len(),
    decreases entries.len(),
{
    if entries.len() > 0 {
        let rest = entries.drop_last();
        lemma_entries_len(rest);
        lemma_entries_contain(rest, entries.last().0@);
        if entries_to_map(rest).contains_key(entries.last().0@) {
            let i = choose|i: int| 0 <= i < rest.len() && #[trigger] rest[i].0@ == entries.last().0@;
            assert(entries[i].0@ == entries[entries.len() - 1].0@);
        }
    }
}

/// A read gives back the last write: after storing `value` under `key`, the map
/// holds `value` under `key`, and every other key holds what it held before.
pub proof fn law_read_after_write<V>(
    before: Map<Seq<char>, V>,
    after: Map<Seq<char>, V>,
    key: Seq<char>,
    value: V,
    other: Seq<char>,
)
    requires
        after == before.insert(key, value),
    ensures
        after.contains_key(key),
        after[key] == value,
        other != key ==> (after.contains_key(other) <==> before.contains_key(other)),
        other != key && before.contains_key(other) ==> after[other] == before[other],
{
}

/// Storing under a key that is already present leaves the number of keys as it
/// was; storing under a new key adds one.
pub proof fn law_insert_len<V>(before: Map<Seq<char>, V>, key: Seq<char>, value: V)
    requires
        before.dom().finite(),
    ensures
        before.insert(key, value).dom().finite(),
        before.contains_key(key) ==> before.insert(key, value).dom().len() == before.dom().len(),
        !before.contains_key(key) ==> before.insert(key, value).dom().len() == before.dom().len() + 1,
{
    if before.contains_key(key) {
        assert(before.insert(key, value).dom() =~= before.dom());
    }
}

/// A map from strings to values. Its view is a `Map` keyed by the characters of
/// each key.
pub struct StringMap<V> {
    entries: Vec<(String, V)>,
}

impl<V> StringMap<V> {
    #[verifier::type_invariant]
    spec fn distinct(self) -> bool {
        keys_distinct(self.entries@)
    }
}

impl<V> View for StringMap<V> {
    type V = Map<Seq<char>, V>;

    closed spec fn view(&self) -> Map<Seq<char>, V> {
        entries_to_map(self.entries@)
    }
}

impl<V> StringMap<V> {
    /// The keys, in the order in which `entry_at` gives them.
    pub closed spec fn key_order(&self) -> Seq<Seq<char>> {
        self.entries@.map_values(|e: (String, V)| e.0@)
    }

    /// An empty map.
    pub fn new() -> (m: Self)
        ensures
            m@ == Map::<Seq<char>, V>::empty(),
    {
        StringMap { entries: Vec::new() }
    }

    /// Index of the entry that carries `key`, if any.
    fn find(&self, key: &String) -> (idx: Option<usize>)
        ensures
            match idx {
                Some(i) => i < self.entries.len() && self.entries@[i as int].0@ == key@,
                None => forall|i: int| 0 <= i < self.entries.len() ==> self.entries@[i].0@ != key@,
            },
    {
        let mut i: usize = 0;
        while i < self.entries.len()
            invariant
                i <= self.entries.len(),
                forall|j: int| 0 <= j < i ==> self.entries@[j].0@ != key@,
            decreases self.entries.len() - i,
        {
            if self.entries[i].0 == *key {
                return Some(i);
            }
            i = i + 1;
        }
        None
    }

    /// Whether `key` is in the map.
    pub fn contains_key(&self, key: &String) -> (b: bool)
        ensures
            b == self@.contains_key(key@),
    {
        proof {
            lemma_entries_contain(self.entries@, key@);
        }
        self.find(key).is_some()
    }

    /// The value stored under `key`, if any.
    pub fn get(&self, key: &String) -> (v: Option<&V>)
        ensures
            match v {
                Some(v) => self@.contains_key(key@) && *v == self@[key@],
                None => !self@.contains_key(key@),
            },
    {
        proof {
            use_type_invariant(self);
            lemma_entries_contain(self.entries@, key@);
        }
        match self.find(key) {
            Some(i) => {
                proof {
                    lemma_entry_value(self.entries@, i as int);
                }
                Some(&self.entries[i].1)
            },
            None => None,
        }
    }

    /// Stores `value` under `key` and gives back the value that was stored
    /// there before, if any.
    pub fn insert(&mut self, key: String, value: V) -> (prev: Option<V>)
        ensures
            final(self)@ == old(self)@.insert(key@, value),
            match prev {
                Some(p) => old(self)@.contains_key(key@) && p == old(self)@[key@],
                None => !old(self)@.contains_key(key@),
            },
    {
        proof {
            use_type_invariant(&*self);
            lemma_entries_contain(self.entries@, key@);
        }
        let ghost old_entries = self.entries@;
        let found = self.find(&key);
        let mut entries: Vec<(String, V)> = Vec::new();
        std::mem::swap(&mut entries, &mut self.entries);
        match found {
            Some(i) => {
                proof {
                    lemma_entry_value(old_entries, i as int);
                    lemma_replace_entry(old_entries, i as int, (key, value));
                }
                let mut entry = (key, value);
                std::mem::swap(&mut entries[i], &mut entry);
                self.entries = entries;
                Some(entry.1)
            },
            None => {
                proof {
                    lemma_push_entry(old_entries, (key, value));
                }
                entries.push((key, value));
                self.entries = entries;
                None
            },
        }
    }

    /// Number of keys in the map. The keys in `key_order` are the keys of
    /// the map, each once.
    pub fn len(&self) -> (n: usize)
        ensures
            self@.dom().finite(),
            n == self@.dom().len(),
            self.key_order().len() == n,
            self.key_order().no_duplicates(),
            forall|k: Seq<char>| self@.contains_key(k) <==> self.key_order().contains(k),
    {
        proof {
            use_type_invariant(self);
            lemma_entries_len(self.entries@);
            assert forall|k: Seq<char>| self@.contains_key(k) <==> self.key_order().contains(k) by {
                lemma_entries_contain(self.entries@, k);
                if self@.contains_key(k) {
                    let i = choose|i: int| 0 <= i < self.entries@.len() && #[trigger] self.entries@[i].0@ == k;
                    assert(self.key_order()[i] == k);
                }
            }
        }
        self.entries.len()
    }

    /// The key and value of the entry at position `i`, for walking the map.
    pub fn entry_at(&self, i: usize) -> (kv: (&String, &V))
        requires
            i < self@.dom().len(),
        ensures
            kv.0@ == self.key_order()[i as int],
            self@.contains_key(kv.0@),
            self@[kv.0@] == *kv.1,
    {
        proof {
            use_type_invariant(self);
            lemma_entries_len(self.entries@);
            lemma_entry_value(self.entries@, i as int);
        }
        (&self.entries[i].0, &self.entries[i].1)
    }
}

impl<V: Clone> Clone for StringMap<V> {
    /// A map with the same keys, each holding a clone of the value it held.
    fn clone(&self) -> (res: Self)
        ensures
            res@.dom() == self@.dom(),
            forall|k: Seq<char>| #[trigger] res@.contains_key(k) ==> cloned::<V>(self@[k], res@[k]),
    {
        proof {
            use_type_invariant(self);
        }
        let mut entries: Vec<(String, V)> = Vec::new();
        let mut i: usize = 0;
        while i < self.entries.len()
            invariant
                i <= self.entries.len(),
                entries.len() == i,
                keys_distinct(self.entries@),
                forall|j: int| 0 <= j < i ==> #[trigger] entries@[j].0@ == self.entries@[j].0@,
                forall|j: int| 0 <= j < i ==> cloned::<V>(self.entries@[j].1, #[trigger] entries@[j].1),
            decreases self.entries.len() - i,
        {
            let key = self.entries[i].0.clone();
            let value = self.entries[i].1.clone();
            entries.push((key, value));
            i = i + 1;
        }
        proof {
            assert forall|k: Seq<char>| #[trigger] entries_to_map(entries@).contains_key(k)
                == entries_to_map(self.entries@).contains_key(k) by {
                lemma_entries_contain(entries@, k);
                lemma_entries_contain(self.entries@, k);
                if entries_to_map(entries@).contains_key(k) {
                    let j = choose|j: int| 0 <= j < entries@.len() && #[trigger] entries@[j].0@ == k;
                    assert(self.entries@[j].0@ == k);
                }
                if entries_to_map(self.entries@).contains_key(k) {
                    let j = choose|j: int| 0 <= j < self.entries@.len() && #[trigger] self.entries@[j].0@ == k;
                    assert(entries@[j].0@ == k);
                }
            }
            assert(entries_to_map(entries@).dom() =~= entries_to_map(self.entries@).dom());
            assert forall|k: Seq<char>| #[trigger] entries_to_map(entries@).contains_key(k)
                implies cloned::<V>(entries_to_map(self.entries@)[k], entries_to_map(entries@)[k]) by {
                lemma_entries_contain(entries@, k);
                let j = choose|j: int| 0 <= j < entries@.len() && #[trigger] entries@[j].0@ == k;
                assert(self.entries@[j].0@ == k);
                lemma_entry_value(entries@, j);
                lemma_entry_value(self.entries@, j);
            }
        }
        StringMap { entries }
    }
}

} // verus!
