//! # String Map
//!
//! A small map from string keys to string values with the semantics of a
//! `HashMap<String, String>`: inserting a key that is present replaces its
//! value, otherwise the entry is added. Used for request headers and for the
//! variables a route lookup captures.

use vstd::prelude::*;

use crate::text::{chars_eq, chars_of};

verus! {

/// The entries of a string map, as character sequences.
pub type Entries = Seq<(Seq<char>, Seq<char>)>;

/// `i` is the first position whose key is `k`.
pub open spec fn first_key<V>(es: Seq<(Seq<char>, V)>, k: Seq<char>, i: int) -> bool {
    0 <= i < es.len() && es[i].0 == k && forall|j: int| 0 <= j < i ==> #[trigger] es[j].0 != k
}

/// The first position whose key is `k`, or `-1` when no entry has that key.
pub open spec fn key_index<V>(es: Seq<(Seq<char>, V)>, k: Seq<char>) -> int {
    if exists|i: int| first_key(es, k, i) {
        choose|i: int| first_key(es, k, i)
    } else {
        -1
    }
}

/// The value stored under `k`.
pub open spec fn lookup<V>(es: Seq<(Seq<char>, V)>, k: Seq<char>) -> Option<V> {
    let i = key_index(es, k);
    if i >= 0 {
        Some(es[i].1)
    } else {
        None
    }
}

/// The entries after inserting `v` under `k`: the value of the entry holding
/// `k` is replaced, or the pair is appended when `k` is absent.
pub open spec fn with_entry<V>(es: Seq<(Seq<char>, V)>, k: Seq<char>, v: V) -> Seq<(Seq<char>, V)> {
    let i = key_index(es, k);
    if i >= 0 {
        es.update(i, (k, v))
    } else {
        es.push((k, v))
    }
}

/// The entries after inserting each pair of `kvs` in order.
pub open spec fn with_entries(es: Entries, kvs: Entries) -> Entries
    decreases kvs.len(),
{
    if kvs.len() == 0 {
        es
    } else {
        with_entry_of(with_entries(es, kvs.drop_last()), kvs.last())
    }
}

/// Helper so that `with_entries` reads left to right.
pub open spec fn with_entry_of(es: Entries, kv: (Seq<char>, Seq<char>)) -> Entries {
    with_entry(es, kv.0, kv.1)
}

pub proof fn lemma_first_key_unique<V>(es: Seq<(Seq<char>, V)>, k: Seq<char>, i: int, j: int)
    requires
        first_key(es, k, i),
        first_key(es, k, j),
    ensures
        i == j,
{
    if i < j {
        assert(es[i].0 != k);
    } else if j < i {
        assert(es[j].0 != k);
    }
}

/// Reading a key back after inserting it gives the inserted value, and
/// inserting one key leaves the value of every other key as it was.
pub proof fn lemma_lookup_after_insert<V>(es: Seq<(Seq<char>, V)>, k: Seq<char>, v: V, other: Seq<char>)
    ensures
        lookup(with_entry(es, k, v), k) == Some(v),
        other != k ==> lookup(with_entry(es, k, v), other) == lookup(es, other),
{
    let i = key_index(es, k);
    let n = with_entry(es, k, v);
    if i >= 0 {
        assert(first_key(es, k, i));
        assert(first_key(n, k, i));
        lemma_first_key_unique(n, k, i, key_index(n, k));
        if other != k {
            if exists|p: int| first_key(es, other, p) {
                let p = choose|p: int| first_key(es, other, p);
                assert(first_key(n, other, p));
                lemma_first_key_unique(n, other, p, key_index(n, other));
            } else {
                assert forall|p: int| !first_key(n, other, p) by {
                    if first_key(n, other, p) {
                        assert(es[p].0 == other);
                        lemma_exists_first(es, other, p);
                    }
                }
            }
        }
    } else {
        assert(first_key(n, k, es.len() as int)) by {
            assert forall|j: int| 0 <= j < es.len() implies #[trigger] n[j].0 != k by {
                if n[j].0 == k {
                    assert(es[j].0 == k);
                    lemma_exists_first(es, k, j);
                }
            }
        }
        lemma_first_key_unique(n, k, es.len() as int, key_index(n, k));
        if other != k {
            if exists|p: int| first_key(es, other, p) {
                let p = choose|p: int| first_key(es, other, p);
                assert(first_key(n, other, p));
                lemma_first_key_unique(n, other, p, key_index(n, other));
            } else {
                assert forall|p: int| !first_key(n, other, p) by {
                    if first_key(n, other, p) {
                        assert(p < es.len());
                        assert(es[p].0 == other);
                        lemma_exists_first(es, other, p);
                    }
                }
            }
        }
    }
}

/// Looking a key up after appending an entry: the entries already there
/// answer first, the appended one only when none of them holds the key.
pub proof fn lemma_lookup_push<V>(es: Seq<(Seq<char>, V)>, x: (Seq<char>, V), o: Seq<char>)
    ensures
        lookup(es.push(x), o) == (match lookup(es, o) {
            Some(w) => Some(w),
            None => if x.0 == o {
                Some(x.1)
            } else {
                None
            },
        }),
{
    let n = es.push(x);
    if exists|p: int| first_key(es, o, p) {
        let p = choose|p: int| first_key(es, o, p);
        assert(first_key(n, o, p));
        lemma_first_key_unique(es, o, p, key_index(es, o));
        lemma_first_key_unique(n, o, p, key_index(n, o));
    } else {
        assert forall|j: int| 0 <= j < es.len() implies #[trigger] es[j].0 != o by {
            if es[j].0 == o {
                lemma_exists_first(es, o, j);
            }
        }
        if x.0 == o {
            assert(first_key(n, o, es.len() as int));
            lemma_first_key_unique(n, o, es.len() as int, key_index(n, o));
        } else {
            assert forall|p: int| !first_key(n, o, p) by {
                if first_key(n, o, p) {
                    assert(n[p].0 == o);
                }
            }
        }
    }
}

/// When some key equals `k`, a first such position exists.
pub proof fn lemma_exists_first<V>(es: Seq<(Seq<char>, V)>, k: Seq<char>, j: int)
    requires
        0 <= j < es.len(),
        es[j].0 == k,
    ensures
        exists|q: int| first_key(es, k, q),
    decreases j,
{
    if forall|r: int| 0 <= r < j ==> #[trigger] es[r].0 != k {
        assert(first_key(es, k, j));
    } else {
        let r = choose|r: int| 0 <= r < j && #[trigger] es[r].0 == k;
        lemma_exists_first(es, k, r);
    }
}

/// # StrMap
///
/// Map from string keys to string values.
pub struct StrMap {
    entries: Vec<(String, String)>,
}

/// The character view of a stored pair.
pub open spec fn entry_view(e: (String, String)) -> (Seq<char>, Seq<char>) {
    (e.0@, e.1@)
}

impl View for StrMap {
    type V = Entries;

    closed spec fn view(&self) -> Entries {
        self.entries@.map_values(|e: (String, String)| entry_view(e))
    }
}

impl StrMap {
    /// Creates an empty map.
    pub fn new() -> (r: StrMap)
        ensures
            r@ == Seq::<(Seq<char>, Seq<char>)>::empty(),
    {
        StrMap { entries: Vec::new() }
    }

    /// The number of keys in the map.
    pub fn len(&self) -> (r: usize)
        ensures
            r == self@.len(),
    {
        self.entries.len()
    }

    /// The stored pairs, in insertion order of their keys.
    pub fn entries(&self) -> (r: &Vec<(String, String)>)
        ensures
            r@.map_values(|e: (String, String)| entry_view(e)) == self@,
    {
        &self.entries
    }

    fn find(&self, k: &[char]) -> (r: Option<usize>)
        ensures
            match r {
                Some(i) => i as int == key_index(self@, k@),
                None => key_index(self@, k@) == -1,
            },
    {
        let mut i: usize = 0;
        while i < self.entries.len()
            invariant
                i <= self.entries@.len(),
                self@.len() == self.entries@.len(),
                forall|j: int| 0 <= j < i ==> #[trigger] self@[j].0 != k@,
            decreases self.entries@.len() - i,
        {
            let key = chars_of(self.entries[i].0.as_str());
            assert(self@[i as int] == entry_view(self.entries@[i as int]));
            if chars_eq(key.as_slice(), k) {
                proof {
                    assert(first_key(self@, k@, i as int));
                    lemma_first_key_unique(self@, k@, i as int, key_index(self@, k@));
                }
                return Some(i);
            }
            i = i + 1;
        }
        assert forall|p: int| !first_key(self@, k@, p) by {
            if first_key(self@, k@, p) {
                assert(self@[p].0 != k@);
            }
        }
        None
    }

    /// Inserts `value` under `key`, returning the value that was stored under
    /// `key` before, if any.
    pub fn insert(&mut self, key: String, value: String) -> (r: Option<String>)
        ensures
            final(self)@ == with_entry(old(self)@, key@, value@),
            match r {
                Some(v) => lookup(old(self)@, key@) == Some(v@),
                None => lookup(old(self)@, key@) is None,
            },
    {
        let k = chars_of(key.as_str());
        match self.find(k.as_slice()) {
            Some(i) => {
                let old_entry = self.entries.remove(i);
                assert(self.entries@ == old(self).entries@.remove(i as int));
                self.entries.insert(i, (key, value));
                assert(self@ == old(self)@.update(i as int, (k@, value@))) by {
                    assert(self.entries@ == old(self).entries@.update(i as int, self.entries@[i as int]));
                }
                assert(old(self)@[i as int] == entry_view(old_entry));
                Some(old_entry.1)
            },
            None => {
                self.entries.push((key, value));
                assert(self@ == old(self)@.push((k@, value@)));
                None
            },
        }
    }

    /// The value stored under `key`, if any.
    pub fn get(&self, key: &str) -> (r: Option<&String>)
        ensures
            match r {
                Some(v) => lookup(self@, key@) == Some(v@),
                None => lookup(self@, key@) is None,
            },
    {
        let k = chars_of(key);
        match self.find(k.as_slice()) {
            Some(i) => {
                assert(self@[i as int] == entry_view(self.entries@[i as int]));
                Some(&self.entries[i].1)
            },
            None => None,
        }
    }
}


/// # KeyMap
///
/// Map from string keys to values of any type, with the same insertion
/// semantics as [`StrMap`].
pub struct KeyMap<V> {
    entries: Vec<(String, V)>,
}

/// The key of a stored pair as characters, with its value.
pub open spec fn keyed_view<V>(e: (String, V)) -> (Seq<char>, V) {
    (e.0@, e.1)
}

impl<V> View for KeyMap<V> {
    type V = Seq<(Seq<char>, V)>;

    closed spec fn view(&self) -> Seq<(Seq<char>, V)> {
        self.entries@.map_values(|e: (String, V)| keyed_view(e))
    }
}

impl<V> KeyMap<V> {
    /// Creates an empty map.
    pub fn new() -> (r: KeyMap<V>)
        ensures
            r@ == Seq::<(Seq<char>, V)>::empty(),
    {
        KeyMap { entries: Vec::new() }
    }

    fn find(&self, k: &[char]) -> (r: Option<usize>)
        ensures
            match r {
                Some(i) => i as int == key_index(self@, k@),
                None => key_index(self@, k@) == -1,
            },
    {
        let mut i: usize = 0;
        while i < self.entries.len()
            invariant
                i <= self.entries@.len(),
                self@.len() == self.entries@.len(),
                forall|j: int| 0 <= j < i ==> #[trigger] self@[j].0 != k@,
            decreases self.entries@.len() - i,
        {
            let key = chars_of(self.entries[i].0.as_str());
            assert(self@[i as int] == keyed_view(self.entries@[i as int]));
            if chars_eq(key.as_slice(), k) {
                proof {
                    assert(first_key(self@, k@, i as int));
                    lemma_first_key_unique(self@, k@, i as int, key_index(self@, k@));
                }
                return Some(i);
            }
            i = i + 1;
        }
        assert forall|p: int| !first_key(self@, k@, p) by {
            if first_key(self@, k@, p) {
                assert(self@[p].0 != k@);
            }
        }
        None
    }

    /// Inserts `value` under `key`, returning the value that was stored under
    /// `key` before, if any.
    pub fn insert(&mut self, key: String, value: V) -> (r: Option<V>)
        ensures
            final(self)@ == with_entry(old(self)@, key@, value),
            r == lookup(old(self)@, key@),
    {
        let k = chars_of(key.as_str());
        match self.find(k.as_slice()) {
            Some(i) => {
                let old_entry = self.entries.remove(i);
                self.entries.insert(i, (key, value));
                assert(self@ == old(self)@.update(i as int, (k@, value))) by {
                    assert(self.entries@ == old(self).entries@.update(i as int, self.entries@[i as int]));
                }
                assert(old(self)@[i as int] == keyed_view(old_entry));
                Some(old_entry.1)
            },
            None => {
                self.entries.push((key, value));
                assert(self@ == old(self)@.push((k@, value)));
                None
            },
        }
    }

    /// The value stored under `key`, if any.
    pub fn get(&self, key: &str) -> (r: Option<&V>)
        ensures
            match r {
                Some(v) => lookup(self@, key@) == Some(*v),
                None => lookup(self@, key@) is None,
            },
    {
        let k = chars_of(key);
        match self.find(k.as_slice()) {
            Some(i) => {
                assert(self@[i as int] == keyed_view(self.entries@[i as int]));
                Some(&self.entries[i].1)
            },
            None => None,
        }
    }
}
} // verus!
