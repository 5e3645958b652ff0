//! A map keyed by text, used for request headers, metadata and routes.
use vstd::prelude::*;
use crate::text::same_text;

verus! {

/// The index of the last entry whose key is `k`, or -1 when no entry has that key.
pub open spec fn key_index<V>(e: Seq<(String, V)>, k: Seq<char>) -> int
    decreases e.len(),
{
    if e.len() == 0 {
        -1
    } else if e.last().0@ == k {
        e.len() - 1
    } else {
        key_index(e.drop_last(), k)
    }
}

/// The map that a list of entries stands for: for each key, the value of its last entry.
pub open spec fn entries_map<V>(e: Seq<(String, V)>) -> Map<Seq<char>, V> {
    Map::new(|k: Seq<char>| key_index(e, k) >= 0, |k: Seq<char>| e[key_index(e, k)].1)
}

/// A map from text keys to values, held as a list of entries in which a later entry
/// for a key overrides an earlier one.
#[derive(Debug)]
pub struct StrMap<V> {
    pub entries: Vec<(String, V)>,
}

impl<V> View for StrMap<V> {
    type V = Map<Seq<char>, V>;

    open spec fn view(&self) -> Map<Seq<char>, V> {
        entries_map(self.entries@)
    }
}

pub proof fn lemma_key_index_bounds<V>(e: Seq<(String, V)>, k: Seq<char>)
    ensures
        -1 <= key_index(e, k) < e.len(),
        key_index(e, k) >= 0 ==> e[key_index(e, k)].0@ == k,
        forall|j: int| key_index(e, k) < j < e.len() ==> e[j].0@ != k,
    decreases e.len(),
{
    if e.len() > 0 && e.last().0@ != k {
        lemma_key_index_bounds(e.drop_last(), k);
        assert forall|j: int| key_index(e, k) < j < e.len() implies e[j].0@ != k by {
            if j < e.len() - 1 {
                assert(e[j] == e.drop_last()[j]);
            }
        }
    }
}

proof fn lemma_key_index_update<V>(e: Seq<(String, V)>, i: int, key: String, v: V, k: Seq<char>)
    requires
        0 <= i < e.len(),
        e[i].0@ == key@,
    ensures
        key_index(e.update(i, (key, v)), k) == key_index(e, k),
    decreases e.len(),
{
    let u = e.update(i, (key, v));
    assert(u.len() == e.len());
    if i == e.len() - 1 {
        assert(u.drop_last() =~= e.drop_last());
    } else {
        assert(u.last() == e.last());
        assert(u.drop_last() =~= e.drop_last().update(i, (key, v)));
        if e.last().0@ != k {
            lemma_key_index_update(e.drop_last(), i, key, v, k);
        }
    }
}

impl<V> StrMap<V> {
    /// An empty map.
    pub fn new() -> (m: Self)
        ensures
            m@ == Map::<Seq<char>, V>::empty(),
    {
        let m = StrMap { entries: Vec::new() };
        assert(m@ =~= Map::<Seq<char>, V>::empty());
        m
    }

    /// The map holding the given pairs, a later pair for a key overriding an earlier one.
    pub fn from_pairs(pairs: Vec<(String, V)>) -> (m: Self)
        ensures
            m.entries@ == pairs@,
            m@ == entries_map(pairs@),
    {
        StrMap { entries: pairs }
    }

    /// The position of the entry that holds `key`, if any.
    fn find(&self, key: &str) -> (r: Option<usize>)
        ensures
            match r {
                Some(i) => i == key_index(self.entries@, key@) && i < self.entries@.len(),
                None => key_index(self.entries@, key@) == -1,
            },
    {
        proof {
            lemma_key_index_bounds(self.entries@, key@);
        }
        let mut k: usize = self.entries.len();
        assert(self.entries@.take(k as int) =~= self.entries@);
        while k > 0
            invariant
                k <= self.entries@.len(),
                key_index(self.entries@, key@) == key_index(self.entries@.take(k as int), key@),
            decreases k,
        {
            assert(self.entries@.take(k as int).drop_last() =~= self.entries@.take(k - 1));
            if same_text(self.entries[k - 1].0.as_str(), key) {
                return Some(k - 1);
            }
            k = k - 1;
        }
        None
    }

    /// The value held for `key`, if any.
    pub fn get(&self, key: &str) -> (r: Option<&V>)
        ensures
            match r {
                Some(v) => self@.contains_key(key@) && *v == self@[key@],
                None => !self@.contains_key(key@),
            },
    {
        match self.find(key) {
            Some(i) => Some(&self.entries[i].1),
            None => None,
        }
    }

    /// Whether a value is held for `key`.
    pub fn contains_key(&self, key: &str) -> (r: bool)
        ensures
            r == self@.contains_key(key@),
    {
        self.find(key).is_some()
    }

    /// Holds `value` for `key`, replacing any value held for it before.
    pub fn insert(&mut self, key: String, value: V)
        ensures
            final(self)@ == old(self)@.insert(key@, value),
    {
        let ghost e = self.entries@;
        match self.find(key.as_str()) {
            Some(i) => {
                proof {
                    lemma_key_index_bounds(e, key@);
                }
                let ghost kv = key@;
                self.entries.set(i, (key, value));
                proof {
                    assert(self.entries@ == e.update(i as int, (key, value)));
                    assert forall|k: Seq<char>| #![auto] key_index(self.entries@, k) == key_index(e, k) by {
                        lemma_key_index_update(e, i as int, key, value, k);
                    }
                    assert forall|k: Seq<char>| #![auto] key_index(e, k) >= 0 && k != kv implies
                        self.entries@[key_index(e, k)] == e[key_index(e, k)] by {
                        lemma_key_index_bounds(e, k);
                    }
                    assert(self@ =~= old(self)@.insert(kv, value));
                }
            },
            None => {
                let ghost kv = key@;
                self.entries.push((key, value));
                proof {
                    assert(self.entries@.drop_last() =~= e);
                    assert forall|k: Seq<char>| #![auto] key_index(e, k) >= 0 implies
                        self.entries@[key_index(e, k)] == e[key_index(e, k)] by {
                        lemma_key_index_bounds(e, k);
                    }
                    assert(self@ =~= old(self)@.insert(kv, value));
                }
            },
        }
    }
}


impl<V: Clone> Clone for StrMap<V> {
    /// A copy holding the same keys, each with a clone of its value.
    fn clone(&self) -> (r: Self)
        ensures
            r.entries@.len() == self.entries@.len(),
            forall|i: int| 0 <= i < self.entries@.len() ==> #[trigger] r.entries@[i].0 == self.entries@[i].0
                && cloned(self.entries@[i].1, r.entries@[i].1),
    {
        let mut entries: Vec<(String, V)> = Vec::new();
        let n = self.entries.len();
        let mut i: usize = 0;
        while i < n
            invariant
                n == self.entries@.len(),
                i <= n,
                entries@.len() == i,
                forall|j: int| 0 <= j < i ==> #[trigger] entries@[j].0 == self.entries@[j].0
                    && cloned(self.entries@[j].1, entries@[j].1),
            decreases n - i,
        {
            let k = self.entries[i].0.clone();
            let v = self.entries[i].1.clone();
            entries.push((k, v));
            i = i + 1;
        }
        StrMap { entries }
    }
}

/// A clone of a text value holds the same text.
pub proof fn lemma_cloned_text(a: String, b: String)
    requires
        cloned(a, b),
    ensures
        a == b,
{
}

/// A clone of a map of texts holds the same entries.
pub proof fn lemma_cloned_text_map(a: StrMap<String>, b: StrMap<String>)
    requires
        b.entries@.len() == a.entries@.len(),
        forall|i: int| 0 <= i < a.entries@.len() ==> #[trigger] b.entries@[i].0 == a.entries@[i].0
            && cloned(a.entries@[i].1, b.entries@[i].1),
    ensures
        b.entries@ == a.entries@,
        b@ == a@,
{
    assert forall|i: int| 0 <= i < a.entries@.len() implies #[trigger] b.entries@[i] == a.entries@[i] by {
        assert(b.entries@[i].0 == a.entries@[i].0);
        lemma_cloned_text(a.entries@[i].1, b.entries@[i].1);
    }
    assert(b.entries@ =~= a.entries@);
}


/// The value of the last pair whose key is `k`, if any.
pub open spec fn pairs_lookup(p: Seq<(Seq<char>, Seq<char>)>, k: Seq<char>) -> Option<Seq<char>>
    decreases p.len(),
{
    if p.len() == 0 {
        None
    } else if p.last().0 == k {
        Some(p.last().1)
    } else {
        pairs_lookup(p.drop_last(), k)
    }
}

/// A map built from text pairs holds, for each key, the value of the key's last pair.
pub proof fn lemma_map_of_pairs(e: Seq<(String, String)>, k: Seq<char>)
    ensures
        entries_map(e).contains_key(k) <==> pairs_lookup(e.map_values(|p: (String, String)| (p.0@, p.1@)), k) is Some,
        entries_map(e).contains_key(k) ==> pairs_lookup(e.map_values(|p: (String, String)| (p.0@, p.1@)), k)
            == Some(entries_map(e)[k]@),
    decreases e.len(),
{
    let pv = e.map_values(|p: (String, String)| (p.0@, p.1@));
    if e.len() > 0 {
        let d = e.drop_last();
        assert(pv.drop_last() =~= d.map_values(|p: (String, String)| (p.0@, p.1@)));
        assert(pv.last() == (e.last().0@, e.last().1@));
        lemma_map_of_pairs(d, k);
        if e.last().0@ != k {
            lemma_key_index_bounds(d, k);
            if key_index(d, k) >= 0 {
                assert(e[key_index(d, k)] == d[key_index(d, k)]);
            }
        }
    }
}


/// What a read gives back of a write: after `key` is given `value`, reading `key` gives
/// `value`, and reading any other key gives what it gave before.
pub proof fn get_after_insert<V>(m: Map<Seq<char>, V>, key: Seq<char>, value: V, other: Seq<char>)
    requires
        other != key,
    ensures
        m.insert(key, value).contains_key(key),
        m.insert(key, value)[key] == value,
        m.insert(key, value).contains_key(other) == m.contains_key(other),
        m.contains_key(other) ==> m.insert(key, value)[other] == m[other],
{
}

} // verus!
