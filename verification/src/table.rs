//! An insertion-ordered table from text keys to values.
//!
//! The builders keep their named parts (inputs, fields, variables, ...) in a
//! `Table`, and the lowered output is a `Table` from identifier text to node.
//! Keys are compared by their characters; a lookup finds the first entry
//! whose key matches, and `insert` replaces the value of that entry when the
//! key is already present, so a table filled through `insert` alone never
//! holds a key twice.

use vstd::prelude::*;

verus! {

/// An ordered association list keyed by text.
#[derive(Debug, Clone, PartialEq, Eq)]
pub struct Table<V> {
    pub entries: Vec<(String, V)>,
}

/// `i` is the first position in `s` whose key reads `key`.
pub open spec fn is_first_match<V>(s: Seq<(String, V)>, key: Seq<char>, i: int) -> bool {
    &&& 0 <= i < s.len()
    &&& s[i].0@ == key
    &&& forall|j: int| 0 <= j < i ==> (#[trigger] s[j]).0@ != key
}

/// Some entry of `s` has the key `key`.
pub open spec fn has_key<V>(s: Seq<(String, V)>, key: Seq<char>) -> bool {
    exists|i: int| 0 <= i < s.len() && (#[trigger] s[i]).0@ == key
}

/// The position of the first entry of `s` with the key `key`.
pub open spec fn find<V>(s: Seq<(String, V)>, key: Seq<char>) -> Option<int> {
    if exists|i: int| is_first_match(s, key, i) {
        Some(choose|i: int| is_first_match(s, key, i))
    } else {
        None
    }
}

/// No two entries of `s` have keys with the same characters.
pub open spec fn keys_distinct<V>(s: Seq<(String, V)>) -> bool {
    forall|i: int, j: int|
        0 <= i < j < s.len() ==> (#[trigger] s[i]).0@ != (#[trigger] s[j]).0@
}

/// `after` is `before` with `value` stored under `key`: in the place of the
/// first entry with that key where there is one, at the end otherwise.
pub open spec fn inserted<V>(
    before: Seq<(String, V)>,
    after: Seq<(String, V)>,
    key: Seq<char>,
    value: V,
) -> bool {
    match find(before, key) {
        Some(i) => {
            &&& after.len() == before.len()
            &&& after[i].0@ == key
            &&& after[i].1 == value
            &&& forall|j: int| 0 <= j < before.len() && j != i ==> after[j] == before[j]
        },
        None => {
            &&& after.len() == before.len() + 1
            &&& after.last().0@ == key
            &&& after.last().1 == value
            &&& forall|j: int| 0 <= j < before.len() ==> after[j] == before[j]
        },
    }
}

/// A first match is the position that `find` reports.
pub proof fn lemma_find_first<V>(s: Seq<(String, V)>, key: Seq<char>, i: int)
    requires
        is_first_match(s, key, i),
    ensures
        find(s, key) == Some(i),
{
    let c = choose|c: int| is_first_match(s, key, c);
    assert(is_first_match(s, key, c));
    if c < i {
        assert(s[c].0@ != key);
    }
    if i < c {
        assert(s[i].0@ != key);
    }
}

/// `find` reports nothing exactly when no entry has the key; what it
/// reports is a first match.
pub proof fn lemma_find<V>(s: Seq<(String, V)>, key: Seq<char>)
    ensures
        find(s, key) is None <==> !has_key(s, key),
        find(s, key) matches Some(i) ==> is_first_match(s, key, i),
{
    if has_key(s, key) {
        let w = choose|i: int| 0 <= i < s.len() && (#[trigger] s[i]).0@ == key;
        lemma_least_match(s, key, w);
    }
    if find(s, key) is Some {
        let c = choose|c: int| is_first_match(s, key, c);
        assert(is_first_match(s, key, c));
        assert(s[c].0@ == key);
    }
}

proof fn lemma_least_match<V>(s: Seq<(String, V)>, key: Seq<char>, w: int)
    requires
        0 <= w < s.len(),
        s[w].0@ == key,
    ensures
        exists|i: int| is_first_match(s, key, i),
    decreases w,
{
    if exists|j: int| 0 <= j < w && (#[trigger] s[j]).0@ == key {
        let j = choose|j: int| 0 <= j < w && (#[trigger] s[j]).0@ == key;
        lemma_least_match(s, key, j);
    } else {
        assert(is_first_match(s, key, w));
    }
}

impl<V> View for Table<V> {
    type V = Map<Seq<char>, V>;

    /// The map that the table stands for: each key that occurs, with the
    /// value of its first entry.
    open spec fn view(&self) -> Map<Seq<char>, V> {
        Map::new(
            |k: Seq<char>| has_key(self.entries@, k),
            |k: Seq<char>| self.entries@[find(self.entries@, k).unwrap()].1,
        )
    }
}

impl<V> Table<V> {
    /// The table holds no key twice.
    pub open spec fn well_formed(&self) -> bool {
        keys_distinct(self.entries@)
    }

    /// An empty table.
    pub fn new() -> (t: Table<V>)
        ensures
            t.entries@ == Seq::<(String, V)>::empty(),
            t@ == Map::<Seq<char>, V>::empty(),
            t.well_formed(),
    {
        let t = Table { entries: Vec::new() };
        assert(t@ =~= Map::<Seq<char>, V>::empty());
        t
    }

    /// The number of entries.
    pub fn len(&self) -> (n: usize)
        ensures
            n == self.entries@.len(),
    {
        self.entries.len()
    }

    /// Whether the table has no entry.
    pub fn is_empty(&self) -> (b: bool)
        ensures
            b == (self.entries@.len() == 0),
    {
        self.entries.len() == 0
    }

    /// The position of the first entry whose key reads as `key` does.
    pub fn position(&self, key: &String) -> (r: Option<usize>)
        ensures
            r is Some <==> has_key(self.entries@, key@),
            match r {
                Some(i) => find(self.entries@, key@) == Some(i as int),
                None => find(self.entries@, key@) is None,
            },
    {
        let n: usize = self.entries.len();
        let mut i: usize = 0;
        while i < n
            invariant
                n == self.entries@.len(),
                i <= n,
                forall|j: int| 0 <= j < i ==> (#[trigger] self.entries@[j]).0@ != key@,
            decreases n - i,
        {
            if self.entries[i].0 == *key {
                proof {
                    assert(is_first_match(self.entries@, key@, i as int));
                    lemma_find_first(self.entries@, key@, i as int);
                }
                return Some(i);
            }
            i += 1;
        }
        proof {
            lemma_find(self.entries@, key@);
        }
        None
    }

    /// Whether some entry has the key.
    pub fn contains_key(&self, key: &String) -> (b: bool)
        ensures
            b == has_key(self.entries@, key@),
            b == self@.contains_key(key@),
    {
        self.position(key).is_some()
    }

    /// The value stored under `key`, if any.
    pub fn get(&self, key: &String) -> (r: Option<&V>)
        ensures
            match r {
                Some(v) => {
                    &&& self@.contains_key(key@)
                    &&& *v == self@[key@]
                    &&& find(self.entries@, key@) is Some
                    &&& *v == self.entries@[find(self.entries@, key@).unwrap()].1
                },
                None => !self@.contains_key(key@) && find(self.entries@, key@) is None,
            },
    {
        match self.position(key) {
            Some(i) => Some(&self.entries[i].1),
            None => None,
        }
    }

    /// Stores `value` under `key`. Where the key is already present, the
    /// entry keeps its place, takes the new value, and the old value is
    /// returned; otherwise a new entry is added at the end.
    pub fn insert(&mut self, key: String, value: V) -> (previous: Option<V>)
        ensures
            final(self)@ == old(self)@.insert(key@, value),
            match find(old(self).entries@, key@) {
                Some(i) => previous == Some(old(self).entries@[i].1)
                    && final(self).entries@ == old(self).entries@.update(i, (key, value)),
                None => previous is None
                    && final(self).entries@ == old(self).entries@.push((key, value)),
            },
            inserted(old(self).entries@, final(self).entries@, key@, value),
            old(self).well_formed() ==> final(self).well_formed(),
    {
        let ghost before = self.entries@;
        let found = self.position(&key);
        proof {
            lemma_find(before, key@);
        }
        match found {
            Some(i) => {
                self.entries.push((key, value));
                let replaced = self.entries.swap_remove(i);
                proof {
                    assert(self.entries@ =~= before.update(i as int, (key, value)));
                    lemma_update_map(before, i as int, key, value);
                    lemma_update_distinct(before, i as int, key, value);
                }
                Some(replaced.1)
            },
            None => {
                self.entries.push((key, value));
                proof {
                    lemma_push_map(before, key, value);
                    lemma_push_distinct(before, key, value);
                }
                None
            },
        }
    }
}

/// The map of a sequence of entries, as `Table::view` gives it.
pub open spec fn entries_map<V>(s: Seq<(String, V)>) -> Map<Seq<char>, V> {
    Map::new(|k: Seq<char>| has_key(s, k), |k: Seq<char>| s[find(s, k).unwrap()].1)
}

proof fn lemma_update_map<V>(s: Seq<(String, V)>, i: int, key: String, value: V)
    requires
        is_first_match(s, key@, i),
    ensures
        entries_map(s.update(i, (key, value))) == entries_map(s).insert(key@, value),
{
    let t = s.update(i, (key, value));
    assert forall|k: Seq<char>| has_key(t, k) == (has_key(s, k) || k == key@) by {
        if has_key(t, k) {
            let w = choose|w: int| 0 <= w < t.len() && (#[trigger] t[w]).0@ == k;
            if w != i {
                assert(s[w].0@ == k);
            }
        }
        if has_key(s, k) {
            let w = choose|w: int| 0 <= w < s.len() && (#[trigger] s[w]).0@ == k;
            if w != i {
                assert(t[w].0@ == k);
            } else {
                assert(t[i].0@ == k);
            }
        }
        if k == key@ {
            assert(t[i].0@ == k);
        }
    }
    assert forall|k: Seq<char>| has_key(t, k) implies #[trigger] entries_map(t)[k] == entries_map(
        s,
    ).insert(key@, value)[k] by {
        lemma_find(t, k);
        lemma_find(s, k);
        let c = find(t, k).unwrap();
        assert(is_first_match(t, k, c));
        if k == key@ {
            assert forall|j: int| 0 <= j < i implies (#[trigger] t[j]).0@ != k by {
                assert(s[j].0@ != k);
            }
            assert(is_first_match(t, k, i));
            lemma_find_first(t, k, i);
        } else {
            assert(c != i);
            assert forall|j: int| 0 <= j < c implies (#[trigger] s[j]).0@ != k by {
                assert(t[j].0@ != k);
            }
            assert(s[c] == t[c]);
            assert(is_first_match(s, k, c));
            lemma_find_first(s, k, c);
        }
    }
    assert(entries_map(t) =~= entries_map(s).insert(key@, value));
}

proof fn lemma_push_map<V>(s: Seq<(String, V)>, key: String, value: V)
    requires
        !has_key(s, key@),
    ensures
        entries_map(s.push((key, value))) == entries_map(s).insert(key@, value),
{
    let t = s.push((key, value));
    assert forall|k: Seq<char>| has_key(t, k) == (has_key(s, k) || k == key@) by {
        if has_key(t, k) {
            let w = choose|w: int| 0 <= w < t.len() && (#[trigger] t[w]).0@ == k;
            if w < s.len() {
                assert(s[w].0@ == k);
            }
        }
        if has_key(s, k) {
            let w = choose|w: int| 0 <= w < s.len() && (#[trigger] s[w]).0@ == k;
            assert(t[w].0@ == k);
        }
        if k == key@ {
            assert(t[s.len() as int].0@ == k);
        }
    }
    assert forall|k: Seq<char>| has_key(t, k) implies #[trigger] entries_map(t)[k] == entries_map(
        s,
    ).insert(key@, value)[k] by {
        lemma_find(t, k);
        lemma_find(s, k);
        let c = find(t, k).unwrap();
        assert(is_first_match(t, k, c));
        if k == key@ {
            if c < s.len() {
                assert(s[c].0@ == k);
            }
        } else {
            assert(c < s.len());
            assert forall|j: int| 0 <= j < c implies (#[trigger] s[j]).0@ != k by {
                assert(t[j].0@ != k);
            }
            assert(s[c] == t[c]);
            assert(is_first_match(s, k, c));
            lemma_find_first(s, k, c);
        }
    }
    assert(entries_map(t) =~= entries_map(s).insert(key@, value));
}

proof fn lemma_update_distinct<V>(s: Seq<(String, V)>, i: int, key: String, value: V)
    requires
        0 <= i < s.len(),
        s[i].0@ == key@,
    ensures
        keys_distinct(s) ==> keys_distinct(s.update(i, (key, value))),
{
    let t = s.update(i, (key, value));
    if keys_distinct(s) {
        assert forall|a: int, b: int| 0 <= a < b < t.len() implies (#[trigger] t[a]).0@ != (
        #[trigger] t[b]).0@ by {
            assert(s[a].0@ != s[b].0@);
        }
    }
}

proof fn lemma_push_distinct<V>(s: Seq<(String, V)>, key: String, value: V)
    requires
        !has_key(s, key@),
    ensures
        keys_distinct(s) ==> keys_distinct(s.push((key, value))),
{
    let t = s.push((key, value));
    if keys_distinct(s) {
        assert forall|a: int, b: int| 0 <= a < b < t.len() implies (#[trigger] t[a]).0@ != (
        #[trigger] t[b]).0@ by {
            if b < s.len() {
                assert(s[a].0@ != s[b].0@);
            } else {
                assert(s[a].0@ != key@);
            }
        }
    }
}

} // verus!
