//! A map from string keys to values that keeps its keys in the order in which
//! they were first inserted. The subscription, email and notifier stores are
//! built on it.

use vstd::prelude::*;

verus! {

/// The keys of an association list, in order.
pub open spec fn keys_of<V>(s: Seq<(Seq<char>, V)>) -> Seq<Seq<char>> {
    s.map_values(|e: (Seq<char>, V)| e.0)
}

/// No key occurs twice in the association list.
pub open spec fn unique_keys<V>(s: Seq<(Seq<char>, V)>) -> bool {
    forall|i: int, j: int| 0 <= i < s.len() && 0 <= j < s.len() && i != j ==> s[i].0 != s[j].0
}

/// `k` is the key of some entry.
pub open spec fn has_key<V>(s: Seq<(Seq<char>, V)>, k: Seq<char>) -> bool {
    exists|i: int| 0 <= i < s.len() && s[i].0 == k
}

/// The map that an association list stands for.
pub open spec fn assoc_map<V>(s: Seq<(Seq<char>, V)>) -> Map<Seq<char>, V> {
    Map::new(
        |k: Seq<char>| has_key(s, k),
        |k: Seq<char>| s[choose|i: int| 0 <= i < s.len() && s[i].0 == k].1,
    )
}

/// In a list with unique keys, the value of the map at an entry's key is that entry's value.
pub proof fn lemma_assoc_map_at<V>(s: Seq<(Seq<char>, V)>, i: int)
    requires
        unique_keys(s),
        0 <= i < s.len(),
    ensures
        assoc_map(s).contains_key(s[i].0),
        assoc_map(s)[s[i].0] == s[i].1,
{
    let k = s[i].0;
    assert(has_key(s, k));
    let j = choose|j: int| 0 <= j < s.len() && s[j].0 == k;
    assert(j == i);
}

/// Pushing an entry with a new key adds that key to the map.
pub proof fn lemma_assoc_map_push<V>(s: Seq<(Seq<char>, V)>, k: Seq<char>, v: V)
    requires
        unique_keys(s),
        !has_key(s, k),
    ensures
        unique_keys(s.push((k, v))),
        assoc_map(s.push((k, v))) == assoc_map(s).insert(k, v),
{
    let t = s.push((k, v));
    assert forall|i: int, j: int| 0 <= i < t.len() && 0 <= j < t.len() && i != j implies t[i].0
        != t[j].0 by {
        if i < s.len() && j < s.len() {
            assert(t[i] == s[i] && t[j] == s[j]);
        } else if i < s.len() {
            assert(t[i] == s[i]);
        } else {
            assert(t[j] == s[j]);
        }
    }
    assert forall|key: Seq<char>| assoc_map(t).contains_key(key) <==> assoc_map(s).insert(
        k,
        v,
    ).contains_key(key) by {
        if has_key(s, key) {
            let i = choose|i: int| 0 <= i < s.len() && s[i].0 == key;
            assert(t[i] == s[i]);
        }
        if has_key(t, key) && key != k {
            let i = choose|i: int| 0 <= i < t.len() && t[i].0 == key;
            assert(i < s.len());
            assert(s[i] == t[i]);
        }
        if key == k {
            assert(t[s.len() as int].0 == k);
        }
    }
    assert forall|key: Seq<char>| #[trigger] assoc_map(t).contains_key(key) implies assoc_map(
        t,
    )[key] == assoc_map(s).insert(k, v)[key] by {
        let i = choose|i: int| 0 <= i < t.len() && t[i].0 == key;
        lemma_assoc_map_at(t, i);
        if i < s.len() {
            assert(t[i] == s[i]);
            lemma_assoc_map_at(s, i);
        }
    }
    assert(assoc_map(t) =~= assoc_map(s).insert(k, v));
}

/// Replacing the value of the entry at `i` replaces the key's value in the map.
pub proof fn lemma_assoc_map_update<V>(s: Seq<(Seq<char>, V)>, i: int, v: V)
    requires
        unique_keys(s),
        0 <= i < s.len(),
    ensures
        unique_keys(s.update(i, (s[i].0, v))),
        assoc_map(s.update(i, (s[i].0, v))) == assoc_map(s).insert(s[i].0, v),
{
    let k = s[i].0;
    let t = s.update(i, (k, v));
    assert forall|a: int, b: int| 0 <= a < t.len() && 0 <= b < t.len() && a != b implies t[a].0
        != t[b].0 by {
        assert(t[a].0 == s[a].0);
        assert(t[b].0 == s[b].0);
    }
    assert forall|key: Seq<char>| assoc_map(t).contains_key(key) <==> assoc_map(s).insert(
        k,
        v,
    ).contains_key(key) by {
        if has_key(s, key) {
            let j = choose|j: int| 0 <= j < s.len() && s[j].0 == key;
            assert(t[j].0 == key);
        }
        if has_key(t, key) {
            let j = choose|j: int| 0 <= j < t.len() && t[j].0 == key;
            assert(s[j].0 == key);
        }
    }
    assert forall|key: Seq<char>| #[trigger] assoc_map(t).contains_key(key) implies assoc_map(
        t,
    )[key] == assoc_map(s).insert(k, v)[key] by {
        let j = choose|j: int| 0 <= j < t.len() && t[j].0 == key;
        lemma_assoc_map_at(t, j);
        if j != i {
            assert(t[j] == s[j]);
            lemma_assoc_map_at(s, j);
        }
    }
    assert(assoc_map(t) =~= assoc_map(s).insert(k, v));
}

/// Removing the entry at `i` removes its key from the map.
pub proof fn lemma_assoc_map_remove<V>(s: Seq<(Seq<char>, V)>, i: int)
    requires
        unique_keys(s),
        0 <= i < s.len(),
    ensures
        unique_keys(s.remove(i)),
        assoc_map(s.remove(i)) == assoc_map(s).remove(s[i].0),
{
    let k = s[i].0;
    let t = s.remove(i);
    assert forall|a: int| 0 <= a < t.len() implies #[trigger] t[a] == s[if a < i {
        a
    } else {
        a + 1
    }] by {}
    assert forall|a: int, b: int| 0 <= a < t.len() && 0 <= b < t.len() && a != b implies t[a].0
        != t[b].0 by {
        let a2 = if a < i {
            a
        } else {
            a + 1
        };
        let b2 = if b < i {
            b
        } else {
            b + 1
        };
        assert(t[a] == s[a2]);
        assert(t[b] == s[b2]);
    }
    assert forall|key: Seq<char>| assoc_map(t).contains_key(key) <==> assoc_map(s).remove(
        k,
    ).contains_key(key) by {
        if has_key(s, key) && key != k {
            let j = choose|j: int| 0 <= j < s.len() && s[j].0 == key;
            assert(j != i);
            let j2 = if j < i {
                j
            } else {
                j - 1
            };
            assert(t[j2] == s[j]);
        }
        if has_key(t, key) {
            let j = choose|j: int| 0 <= j < t.len() && t[j].0 == key;
            let j2 = if j < i {
                j
            } else {
                j + 1
            };
            assert(t[j] == s[j2]);
            assert(j2 != i);
        }
    }
    assert forall|key: Seq<char>| #[trigger] assoc_map(t).contains_key(key) implies assoc_map(
        t,
    )[key] == assoc_map(s).remove(k)[key] by {
        let j = choose|j: int| 0 <= j < t.len() && t[j].0 == key;
        lemma_assoc_map_at(t, j);
        let j2 = if j < i {
            j
        } else {
            j + 1
        };
        assert(t[j] == s[j2]);
        lemma_assoc_map_at(s, j2);
    }
    assert(assoc_map(t) =~= assoc_map(s).remove(k));
}

/// The predicate that holds of every key other than `key`.
pub open spec fn differs(key: Seq<char>) -> spec_fn(Seq<char>) -> bool {
    |k: Seq<char>| k != key
}

/// An entry of a keyed store.
#[derive(Clone)]
pub struct Entry<V> {
    pub key: String,
    pub value: V,
}

/// A map from string keys to values, listing its keys in insertion order.
/// Inserting an existing key replaces the value in place.
#[derive(Clone)]
pub struct KeyedStore<V> {
    entries: Vec<Entry<V>>,
}

impl<V> KeyedStore<V> {
    /// The entries as an association list.
    pub closed spec fn assoc(&self) -> Seq<(Seq<char>, V)> {
        self.entries@.map_values(|e: Entry<V>| (e.key@, e.value))
    }

    /// The store's map from keys to values.
    pub open spec fn map(&self) -> Map<Seq<char>, V> {
        assoc_map(self.assoc())
    }

    /// The keys, in the order in which they were first inserted.
    pub open spec fn key_order(&self) -> Seq<Seq<char>> {
        keys_of(self.assoc())
    }

    /// The store's invariant: no key occurs twice.
    pub open spec fn wf(&self) -> bool {
        unique_keys(self.assoc())
    }

    /// An empty store.
    pub fn new() -> (store: Self)
        ensures
            store.wf(),
            store.assoc() == Seq::<(Seq<char>, V)>::empty(),
            store.map() == Map::<Seq<char>, V>::empty(),
            store.key_order() == Seq::<Seq<char>>::empty(),
    {
        let store = KeyedStore { entries: Vec::new() };
        assert(store.assoc() =~= Seq::<(Seq<char>, V)>::empty());
        assert(store.map() =~= Map::<Seq<char>, V>::empty());
        assert(store.key_order() =~= Seq::<Seq<char>>::empty());
        store
    }

    /// A store whose map is empty has no keys in its order.
    pub proof fn lemma_empty_order(&self)
        requires
            self.wf(),
            self.assoc().len() == 0,
        ensures
            self.map() == Map::<Seq<char>, V>::empty(),
            self.key_order() == Seq::<Seq<char>>::empty(),
    {
        assert(self.map() =~= Map::<Seq<char>, V>::empty());
        assert(self.key_order() =~= Seq::<Seq<char>>::empty());
    }

    /// The number of entries.
    pub fn len(&self) -> (n: usize)
        requires
            self.wf(),
        ensures
            n == self.assoc().len(),
            n == self.map().len(),
    {
        proof {
            self.lemma_len_matches_map();
        }
        self.entries.len()
    }

    pub proof fn lemma_len_matches_map(&self)
        requires
            self.wf(),
        ensures
            self.map().len() == self.assoc().len(),
            self.map().dom().finite(),
    {
        let s = self.assoc();
        let ks = keys_of(s);
        assert forall|i: int, j: int| 0 <= i < ks.len() && 0 <= j < ks.len() && i != j implies ks[i]
            != ks[j] by {}
        assert(ks.no_duplicates());
        assert forall|k: Seq<char>| self.map().dom().contains(k) <==> ks.to_set().contains(k) by {
            if has_key(s, k) {
                let i = choose|i: int| 0 <= i < s.len() && s[i].0 == k;
                assert(ks[i] == k);
            }
            if ks.to_set().contains(k) {
                let i = choose|i: int| 0 <= i < ks.len() && ks[i] == k;
                assert(s[i].0 == k);
            }
        }
        assert(self.map().dom() =~= ks.to_set());
        ks.unique_seq_to_set();
    }

    /// Position of `key`, if it is present.
    fn position(&self, key: &String) -> (pos: Option<usize>)
        requires
            self.wf(),
        ensures
            match pos {
                Some(i) => i < self.assoc().len() && self.assoc()[i as int].0 == key@,
                None => !has_key(self.assoc(), key@),
            },
    {
        let mut i: usize = 0;
        while i < self.entries.len()
            invariant
                i <= self.entries@.len(),
                forall|j: int| 0 <= j < i ==> self.assoc()[j].0 != key@,
            decreases self.entries@.len() - i,
        {
            if self.entries[i].key == *key {
                return Some(i);
            }
            i = i + 1;
        }
        None
    }

    /// Inserts `value` under `key`, replacing and returning the previous value.
    pub fn insert(&mut self, key: String, value: V) -> (previous: Option<V>)
        requires
            old(self).wf(),
        ensures
            final(self).wf(),
            final(self).map() == old(self).map().insert(key@, value),
            previous == old(self).map().get(key@),
            old(self).map().contains_key(key@) ==> final(self).key_order() == old(
                self,
            ).key_order(),
            !old(self).map().contains_key(key@) ==> final(self).key_order() == old(
                self,
            ).key_order().push(key@),
    {
        let ghost s = self.assoc();
        match self.position(&key) {
            Some(i) => {
                let old_entry = self.entries.remove(i);
                let ghost kv = key@;
                self.entries.insert(i, Entry { key, value });
                proof {
                    assert(self.assoc() =~= s.update(i as int, (s[i as int].0, value)));
                    lemma_assoc_map_update(s, i as int, value);
                    lemma_assoc_map_at(s, i as int);
                    assert(keys_of(self.assoc()) =~= keys_of(s));
                }
                Some(old_entry.value)
            },
            None => {
                let ghost kv = key@;
                self.entries.push(Entry { key, value });
                proof {
                    assert(self.assoc() =~= s.push((kv, value)));
                    lemma_assoc_map_push(s, kv, value);
                    assert(keys_of(self.assoc()) =~= keys_of(s).push(kv));
                }
                None
            },
        }
    }

    /// Removes the entry under `key` and returns its value.
    pub fn remove(&mut self, key: &String) -> (removed: Option<V>)
        requires
            old(self).wf(),
        ensures
            final(self).wf(),
            final(self).map() == old(self).map().remove(key@),
            removed == old(self).map().get(key@),
            final(self).key_order() == old(self).key_order().filter(differs(key@)),
    {
        let ghost s = self.assoc();
        match self.position(key) {
            Some(i) => {
                let e = self.entries.remove(i);
                proof {
                    assert(self.assoc() =~= s.remove(i as int));
                    lemma_assoc_map_remove(s, i as int);
                    lemma_assoc_map_at(s, i as int);
                    lemma_filter_out_unique(keys_of(s), i as int);
                    assert(keys_of(s.remove(i as int)) =~= keys_of(s).remove(i as int));
                }
                Some(e.value)
            },
            None => {
                proof {
                    lemma_filter_out_absent(keys_of(s), key@);
                }
                None
            },
        }
    }

    /// The value under `key`, if any.
    pub fn get(&self, key: &String) -> (found: Option<&V>)
        requires
            self.wf(),
        ensures
            match found {
                Some(v) => self.map().contains_key(key@) && *v == self.map()[key@],
                None => !self.map().contains_key(key@),
            },
    {
        match self.position(key) {
            Some(i) => {
                proof {
                    lemma_assoc_map_at(self.assoc(), i as int);
                }
                Some(&self.entries[i].value)
            },
            None => None,
        }
    }

    /// The keys, in order.
    pub fn keys(&self) -> (ks: Vec<String>)
        ensures
            ks@.map_values(|k: String| k@) == self.key_order(),
    {
        let mut ks: Vec<String> = Vec::new();
        let mut i: usize = 0;
        while i < self.entries.len()
            invariant
                i <= self.entries@.len(),
                ks@.len() == i,
                self.key_order().len() == self.entries@.len(),
                forall|j: int| 0 <= j < i ==> #[trigger] ks@[j]@ == self.key_order()[j],
            decreases self.entries@.len() - i,
        {
            ks.push(self.entries[i].key.clone());
            proof {
                assert(self.key_order()[i as int] == self.entries@[i as int].key@);
            }
            i = i + 1;
        }
        proof {
            assert(ks@.map_values(|k: String| k@) =~= self.key_order());
        }
        ks
    }

    /// The values, in key order.
    pub fn values(&self) -> (vs: Vec<&V>)
        ensures
            vs@.len() == self.key_order().len(),
            vs@.len() == self.assoc().len(),
            forall|i: int| 0 <= i < vs@.len() ==> *vs@[i] == self.assoc()[i].1,
    {
        let mut vs: Vec<&V> = Vec::new();
        let mut i: usize = 0;
        while i < self.entries.len()
            invariant
                i <= self.entries@.len(),
                vs@.len() == i,
                forall|j: int| 0 <= j < i ==> *vs@[j] == self.assoc()[j].1,
            decreases self.entries@.len() - i,
        {
            vs.push(&self.entries[i].value);
            i = i + 1;
        }
        vs
    }
}

/// The key at position `i` of the order is in the map.
pub proof fn lemma_order_in_map<V>(store: &KeyedStore<V>, i: int)
    requires
        store.wf(),
        0 <= i < store.key_order().len(),
    ensures
        store.map().contains_key(store.key_order()[i]),
        store.map()[store.key_order()[i]] == store.assoc()[i].1,
{
    lemma_assoc_map_at(store.assoc(), i);
}

impl<V> KeyedStore<V> {
    /// A key is in the order exactly when it is in the map.
    pub proof fn lemma_order_contains(&self, k: Seq<char>)
        requires
            self.wf(),
        ensures
            self.key_order().contains(k) <==> self.map().contains_key(k),
    {
        if self.key_order().contains(k) {
            let i = choose|i: int| 0 <= i < self.key_order().len() && self.key_order()[i] == k;
            lemma_order_in_map(self, i);
        }
        if self.map().contains_key(k) {
            let i = choose|i: int| 0 <= i < self.assoc().len() && self.assoc()[i].0 == k;
            assert(self.key_order()[i] == k);
        }
    }

    /// A store that holds a key is not empty.
    pub proof fn lemma_len_positive(&self, k: Seq<char>)
        requires
            self.wf(),
            self.map().contains_key(k),
        ensures
            self.map().len() > 0,
    {
        self.lemma_len_matches_map();
        assert(self.map().dom().contains(k));
    }
}

/// Filtering a key out of a sequence without duplicates removes exactly its one position.
proof fn lemma_filter_out_unique(ks: Seq<Seq<char>>, i: int)
    requires
        0 <= i < ks.len(),
        forall|a: int, b: int| 0 <= a < ks.len() && 0 <= b < ks.len() && a != b ==> ks[a] != ks[b],
    ensures
        ks.filter(differs(ks[i])) == ks.remove(i),
    decreases ks.len(),
{
    let key = ks[i];
    let f = differs(key);
    reveal_with_fuel(Seq::filter, 1);
    if i == ks.len() - 1 {
        assert(ks.drop_last() =~= ks.remove(i));
        lemma_filter_out_absent(ks.drop_last(), key);
        assert(ks.filter(f) == ks.drop_last().filter(f));
    } else {
        lemma_filter_out_unique(ks.drop_last(), i);
        assert(ks.drop_last().remove(i).push(ks.last()) =~= ks.remove(i));
        assert(ks.last() != key);
        assert(f(ks.last()));
        assert(ks.filter(f) == ks.drop_last().filter(f).push(ks.last()));
    }
}

/// Filtering out a key that does not occur leaves the sequence as it is.
proof fn lemma_filter_out_absent(ks: Seq<Seq<char>>, key: Seq<char>)
    requires
        forall|a: int| 0 <= a < ks.len() ==> ks[a] != key,
    ensures
        ks.filter(differs(key)) == ks,
    decreases ks.len(),
{
    reveal_with_fuel(Seq::filter, 1);
    if ks.len() > 0 {
        lemma_filter_out_absent(ks.drop_last(), key);
        assert(ks.drop_last().push(ks.last()) =~= ks);
        assert(differs(key)(ks.last()));
    } else {
        assert(ks.filter(differs(key)) =~= ks);
    }
}

} // verus!
