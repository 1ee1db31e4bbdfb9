//! A map keyed by text, kept as a list of distinct keys with their values.
use crate::text::str_equal;
use vstd::prelude::*;

verus! {

/// The map that a list of key/value pairs denotes (later pairs win).
pub open spec fn pairs_map<V>(s: Seq<(String, V)>) -> Map<Seq<char>, V>
    decreases s.len(),
{
    if s.len() == 0 {
        Map::empty()
    } else {
        pairs_map(s.drop_last()).insert(s.last().0@, s.last().1)
    }
}

/// No key occurs twice in the list.
pub open spec fn keys_distinct<V>(s: Seq<(String, V)>) -> bool {
    forall|i: int, j: int| 0 <= i < s.len() && 0 <= j < s.len() && i != j ==> s[i].0@ != s[j].0@
}

/// The position of `k` in the list, or -1 if absent.
pub open spec fn key_index<V>(s: Seq<(String, V)>, k: Seq<char>) -> int
    decreases s.len(),
{
    if s.len() == 0 {
        -1
    } else if s.last().0@ == k {
        s.len() - 1
    } else {
        key_index(s.drop_last(), k)
    }
}

pub proof fn lemma_pairs_map<V>(s: Seq<(String, V)>)
    requires
        keys_distinct(s),
    ensures
        forall|i: int| 0 <= i < s.len() ==> #[trigger] pairs_map(s).contains_key(s[i].0@) && pairs_map(s)[s[i].0@] == s[i].1,
        forall|k: Seq<char>| #[trigger] pairs_map(s).contains_key(k) ==> exists|i: int| 0 <= i < s.len() && s[i].0@ == k,
        pairs_map(s).dom().finite(),
        pairs_map(s).len() == s.len(),
    decreases s.len(),
{
    if s.len() > 0 {
        let t = s.drop_last();
        assert(keys_distinct(t));
        lemma_pairs_map(t);
        assert forall|i: int| 0 <= i < t.len() implies t[i].0@ != s.last().0@ by {
            assert(s[i] == t[i]);
        }
        assert(!pairs_map(t).contains_key(s.last().0@));
        assert forall|i: int| 0 <= i < s.len() implies #[trigger] pairs_map(s).contains_key(s[i].0@) && pairs_map(s)[s[i].0@] == s[i].1 by {
            if i < s.len() - 1 {
                assert(s[i] == t[i]);
            }
        }
        assert forall|k: Seq<char>| #[trigger] pairs_map(s).contains_key(k) implies exists|i: int| 0 <= i < s.len() && s[i].0@ == k by {
            if k != s.last().0@ {
                let i = choose|i: int| 0 <= i < t.len() && t[i].0@ == k;
                assert(s[i] == t[i]);
            } else {
                assert(s[s.len() - 1].0@ == k);
            }
        }
    }
}

/// A map from text keys to values; no key occurs twice.
#[derive(Debug, Clone)]
pub struct StrMap<V> {
    entries: Vec<(String, V)>,
}

impl<V> View for StrMap<V> {
    type V = Map<Seq<char>, V>;

    closed spec fn view(&self) -> Map<Seq<char>, V> {
        pairs_map(self.entries@)
    }
}

impl<V> StrMap<V> {
    /// The pairs in the order they are kept.
    pub closed spec fn pairs(&self) -> Seq<(String, V)> {
        self.entries@
    }

    /// Well-formed: no key occurs twice.
    pub closed spec fn wf(&self) -> bool {
        keys_distinct(self.entries@)
    }

    pub proof fn lemma_view(&self)
        requires
            self.wf(),
        ensures
            forall|i: int| 0 <= i < self.pairs().len() ==> #[trigger] self@.contains_key(self.pairs()[i].0@) && self@[self.pairs()[i].0@] == self.pairs()[i].1,
            forall|k: Seq<char>| #[trigger] self@.contains_key(k) ==> exists|i: int| 0 <= i < self.pairs().len() && self.pairs()[i].0@ == k,
            self@.dom().finite(),
            self@.len() == self.pairs().len(),
            keys_distinct(self.pairs()),
    {
        lemma_pairs_map(self.entries@);
        assert forall|k: Seq<char>| #[trigger] self@.contains_key(k) implies exists|i: int| 0 <= i < self.pairs().len() && self.pairs()[i].0@ == k by {
            let i = choose|i: int| 0 <= i < self.entries@.len() && self.entries@[i].0@ == k;
            assert(self.pairs()[i].0@ == k);
        }
    }

    /// An empty map.
    pub fn new() -> (m: Self)
        ensures
            m.wf(),
            m@ == Map::<Seq<char>, V>::empty(),
            m.pairs() == Seq::<(String, V)>::empty(),
    {
        StrMap { entries: Vec::new() }
    }

    /// The number of keys.
    pub fn len(&self) -> (n: usize)
        requires
            self.wf(),
        ensures
            n == self@.len(),
            n == self.pairs().len(),
    {
        proof { lemma_pairs_map(self.entries@); }
        self.entries.len()
    }

    /// True when the map holds no key.
    pub fn is_empty(&self) -> (b: bool)
        requires
            self.wf(),
        ensures
            b == (self@.len() == 0),
            b == (self@ == Map::<Seq<char>, V>::empty()),
    {
        proof { lemma_pairs_map(self.entries@); }
        let b = self.entries.len() == 0;
        if !b {
            assert(self@.contains_key(self.entries@[0].0@));
        } else {
            assert(self@ =~= Map::<Seq<char>, V>::empty());
        }
        b
    }

    fn find(&self, key: &str) -> (r: Option<usize>)
        requires
            self.wf(),
        ensures
            match r {
                Some(i) => i < self.entries@.len() && self.entries@[i as int].0@ == key@,
                None => forall|i: int| 0 <= i < self.entries@.len() ==> self.entries@[i].0@ != key@,
            },
            r is None <==> !self@.contains_key(key@),
    {
        proof { lemma_pairs_map(self.entries@); }
        let mut i: usize = 0;
        while i < self.entries.len()
            invariant
                i <= self.entries@.len(),
                self.wf(),
                forall|j: int| 0 <= j < i ==> self.entries@[j].0@ != key@,
            decreases self.entries@.len() - i,
        {
            if str_equal(self.entries[i].0.as_str(), key) {
                proof { lemma_pairs_map(self.entries@); }
                assert(self@.contains_key(self.entries@[i as int].0@));
                return Some(i);
            }
            i = i + 1;
        }
        None
    }

    /// True when `key` is in the map.
    pub fn contains_key(&self, key: &str) -> (b: bool)
        requires
            self.wf(),
        ensures
            b == self@.contains_key(key@),
    {
        self.find(key).is_some()
    }

    /// The value of `key`, if any.
    pub fn get(&self, key: &str) -> (r: Option<&V>)
        requires
            self.wf(),
        ensures
            match r {
                Some(v) => self@.contains_key(key@) && *v == self@[key@],
                None => !self@.contains_key(key@),
            },
    {
        proof { lemma_pairs_map(self.entries@); }
        match self.find(key) {
            Some(i) => Some(&self.entries[i].1),
            None => None,
        }
    }

    /// Set the value of `key`, returning the value it replaces, if any. A new key goes last.
    pub fn insert(&mut self, key: String, value: V) -> (r: Option<V>)
        requires
            old(self).wf(),
        ensures
            final(self).wf(),
            final(self)@ == old(self)@.insert(key@, value),
            match r {
                Some(v) => old(self)@.contains_key(key@) && v == old(self)@[key@],
                None => !old(self)@.contains_key(key@),
            },
            !old(self)@.contains_key(key@) ==> final(self).pairs() == old(self).pairs().push((key, value)),
    {
        proof { lemma_pairs_map(self.entries@); }
        match self.find(key.as_str()) {
            Some(i) => {
                let ghost k = key@;
                let (_, old_v) = self.entries.remove(i);
                self.entries.insert(i, (key, value));
                proof {
                    assert(self.entries@ =~= old(self).entries@.update(i as int, (self.entries@[i as int].0, value)));
                    assert(keys_distinct(self.entries@)) by {
                        assert forall|a: int, b: int| 0 <= a < self.entries@.len() && 0 <= b < self.entries@.len() && a != b implies self.entries@[a].0@ != self.entries@[b].0@ by {
                            if a != i && b != i {
                                assert(self.entries@[a] == old(self).entries@[a]);
                                assert(self.entries@[b] == old(self).entries@[b]);
                            } else if a == i {
                                assert(self.entries@[b] == old(self).entries@[b]);
                            } else {
                                assert(self.entries@[a] == old(self).entries@[a]);
                            }
                        }
                    }
                    lemma_pairs_map(self.entries@);
                    assert(self@ =~= old(self)@.insert(k, value)) by {
                        assert forall|kk: Seq<char>| self@.contains_key(kk) <==> old(self)@.insert(k, value).contains_key(kk) by {
                            if self@.contains_key(kk) {
                                let j = choose|j: int| 0 <= j < self.entries@.len() && self.entries@[j].0@ == kk;
                                if j != i { assert(self.entries@[j] == old(self).entries@[j]); }
                            }
                            if old(self)@.contains_key(kk) && kk != k {
                                let j = choose|j: int| 0 <= j < old(self).entries@.len() && old(self).entries@[j].0@ == kk;
                                assert(j != i);
                                assert(self.entries@[j] == old(self).entries@[j]);
                            }
                        }
                        assert forall|kk: Seq<char>| self@.contains_key(kk) implies self@[kk] == old(self)@.insert(k, value)[kk] by {
                            let j = choose|j: int| 0 <= j < self.entries@.len() && self.entries@[j].0@ == kk;
                            if j != i { assert(self.entries@[j] == old(self).entries@[j]); }
                        }
                    }
                }
                Some(old_v)
            },
            None => {
                let ghost k = key@;
                self.entries.push((key, value));
                proof {
                    assert(self.entries@.drop_last() =~= old(self).entries@);
                    assert(keys_distinct(self.entries@)) by {
                        assert forall|a: int, b: int| 0 <= a < self.entries@.len() && 0 <= b < self.entries@.len() && a != b implies self.entries@[a].0@ != self.entries@[b].0@ by {
                            if a < old(self).entries@.len() && b < old(self).entries@.len() {
                                assert(self.entries@[a] == old(self).entries@[a]);
                                assert(self.entries@[b] == old(self).entries@[b]);
                            } else if a < old(self).entries@.len() {
                                assert(self.entries@[a] == old(self).entries@[a]);
                            } else {
                                assert(self.entries@[b] == old(self).entries@[b]);
                            }
                        }
                    }
                }
                None
            },
        }
    }

    /// Remove `key`, returning its value, if any. The other pairs keep their order.
    pub fn remove(&mut self, key: &str) -> (r: Option<V>)
        requires
            old(self).wf(),
        ensures
            final(self).wf(),
            final(self)@ == old(self)@.remove(key@),
            match r {
                Some(v) => old(self)@.contains_key(key@) && v == old(self)@[key@],
                None => !old(self)@.contains_key(key@) && final(self).pairs() == old(self).pairs(),
            },
    {
        proof { lemma_pairs_map(self.entries@); }
        match self.find(key) {
            Some(i) => {
                let (_, v) = self.entries.remove(i);
                proof {
                    let o = old(self).entries@;
                    assert forall|a: int| 0 <= a < self.entries@.len() implies #[trigger] self.entries@[a] == (if a < i { o[a] } else { o[a + 1] }) by {}
                    assert(keys_distinct(self.entries@)) by {
                        assert forall|a: int, b: int| 0 <= a < self.entries@.len() && 0 <= b < self.entries@.len() && a != b implies self.entries@[a].0@ != self.entries@[b].0@ by {
                            let a2 = if a < i { a } else { a + 1 };
                            let b2 = if b < i { b } else { b + 1 };
                            assert(self.entries@[a] == o[a2]);
                            assert(self.entries@[b] == o[b2]);
                        }
                    }
                    lemma_pairs_map(self.entries@);
                    assert(self@ =~= old(self)@.remove(key@)) by {
                        assert forall|kk: Seq<char>| self@.contains_key(kk) <==> old(self)@.remove(key@).contains_key(kk) by {
                            if self@.contains_key(kk) {
                                let j = choose|j: int| 0 <= j < self.entries@.len() && self.entries@[j].0@ == kk;
                                let j2 = if j < i { j } else { j + 1 };
                                assert(self.entries@[j] == o[j2]);
                            }
                            if old(self)@.contains_key(kk) && kk != key@ {
                                let j = choose|j: int| 0 <= j < o.len() && o[j].0@ == kk;
                                assert(j != i);
                                let j2 = if j < i { j } else { j - 1 };
                                assert(self.entries@[j2] == o[j]);
                            }
                        }
                        assert forall|kk: Seq<char>| self@.contains_key(kk) implies self@[kk] == old(self)@.remove(key@)[kk] by {
                            let j = choose|j: int| 0 <= j < self.entries@.len() && self.entries@[j].0@ == kk;
                            let j2 = if j < i { j } else { j + 1 };
                            assert(self.entries@[j] == o[j2]);
                        }
                    }
                }
                Some(v)
            },
            None => {
                assert(old(self)@.remove(key@) =~= old(self)@);
                None
            },
        }
    }

    /// The key at position `i` of the kept order.
    pub fn key_at(&self, i: usize) -> (k: &String)
        requires
            i < self.pairs().len(),
        ensures
            *k == self.pairs()[i as int].0,
    {
        &self.entries[i].0
    }

    /// The value at position `i` of the kept order.
    pub fn value_at(&self, i: usize) -> (v: &V)
        requires
            i < self.pairs().len(),
        ensures
            *v == self.pairs()[i as int].1,
    {
        &self.entries[i].1
    }
}

} // verus!
