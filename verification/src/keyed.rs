//! A map whose keys are texts.
use vstd::prelude::*;

use crate::text::same;

verus! {

/// A small map from text keys to values, kept as a list of entries in which no
/// key occurs twice.
pub struct Keyed<V> {
    entries: Vec<(String, V)>,
}

/// A set of text keys.
pub type IdSet = Keyed<()>;

impl<V> Keyed<V> {
    /// The index of the entry for `k`, when there is one.
    pub closed spec fn slot(self, k: Seq<char>) -> Option<int> {
        if exists|i: int| 0 <= i < self.entries@.len() && (#[trigger] self.entries@[i]).0@ == k {
            Some(choose|i: int| 0 <= i < self.entries@.len() && (#[trigger] self.entries@[i]).0@ == k)
        } else {
            None
        }
    }

    /// No key occurs twice.
    pub closed spec fn wf(self) -> bool {
        forall|i: int, j: int|
            0 <= i < self.entries@.len() && 0 <= j < self.entries@.len() && (
            #[trigger] self.entries@[i]).0@ == (#[trigger] self.entries@[j]).0@ ==> i == j
    }

    /// The map that the entries stand for.
    pub closed spec fn view(self) -> Map<Seq<char>, V> {
        Map::new(|k: Seq<char>| self.slot(k) is Some, |k: Seq<char>| self.entries@[self.slot(k)->0].1)
    }

    proof fn slot_at(self, i: int)
        requires
            self.wf(),
            0 <= i < self.entries@.len(),
        ensures
            self.slot(self.entries@[i].0@) == Some(i),
            self@.contains_key(self.entries@[i].0@),
            self@[self.entries@[i].0@] == self.entries@[i].1,
    {
        let k = self.entries@[i].0@;
        let j = choose|j: int| 0 <= j < self.entries@.len() && (#[trigger] self.entries@[j]).0@ == k;
        assert(self.entries@[j].0@ == self.entries@[i].0@);
    }

    /// A map agrees with the entries when each entry is in it and every key of
    /// it has an entry.
    proof fn is_map(self, m: Map<Seq<char>, V>)
        requires
            self.wf(),
            forall|i: int|
                0 <= i < self.entries@.len() ==> m.contains_key((#[trigger] self.entries@[i]).0@)
                    && m[self.entries@[i].0@] == self.entries@[i].1,
            forall|k: Seq<char>| #[trigger]
                m.contains_key(k) ==> exists|i: int|
                    0 <= i < self.entries@.len() && (#[trigger] self.entries@[i]).0@ == k,
        ensures
            self@ == m,
    {
        assert forall|k: Seq<char>| #[trigger] self@.contains_key(k) implies m.contains_key(k)
            && m[k] == self@[k] by {
            let i = self.slot(k)->0;
            assert(self.entries@[i].0@ == k);
        }
        assert forall|k: Seq<char>| #[trigger] m.contains_key(k) implies self@.contains_key(k) by {}
        assert(self@ =~= m);
    }

    /// What the map says of each entry, and that it holds nothing else.
    proof fn all_entries(self)
        requires
            self.wf(),
        ensures
            forall|i: int|
                0 <= i < self.entries@.len() ==> self@.contains_key((#[trigger] self.entries@[i]).0@)
                    && self@[self.entries@[i].0@] == self.entries@[i].1,
            forall|k: Seq<char>| #[trigger]
                self@.contains_key(k) ==> exists|i: int|
                    0 <= i < self.entries@.len() && (#[trigger] self.entries@[i]).0@ == k,
    {
        assert forall|i: int| 0 <= i < self.entries@.len() implies self@.contains_key(
            (#[trigger] self.entries@[i]).0@,
        ) && self@[self.entries@[i].0@] == self.entries@[i].1 by {
            self.slot_at(i);
        }
    }

    /// An empty map.
    pub fn new() -> (m: Self)
        ensures
            m.wf(),
            m@ == Map::<Seq<char>, V>::empty(),
    {
        let m = Keyed { entries: Vec::new() };
        assert(m@ =~= Map::<Seq<char>, V>::empty());
        m
    }

    fn find(&self, key: &str) -> (at: Option<usize>)
        requires
            self.wf(),
        ensures
            match at {
                Some(i) => i < self.entries@.len() && self.entries@[i as int].0@ == key@ && self.slot(
                    key@,
                ) == Some(i as int) && self@.contains_key(key@) && self@[key@]
                    == self.entries@[i as int].1,
                None => !self@.contains_key(key@) && forall|j: int|
                    0 <= j < self.entries@.len() ==> (#[trigger] self.entries@[j]).0@ != key@,
            },
    {
        let mut i: usize = 0;
        while i < self.entries.len()
            invariant
                i <= self.entries@.len(),
                self.wf(),
                forall|j: int| 0 <= j < i ==> (#[trigger] self.entries@[j]).0@ != key@,
            decreases self.entries@.len() - i,
        {
            if same(self.entries[i].0.as_str(), key) {
                proof {
                    self.slot_at(i as int);
                }
                return Some(i);
            }
            i += 1;
        }
        None
    }

    /// Whether there is a value for `key`.
    pub fn contains(&self, key: &str) -> (r: bool)
        requires
            self.wf(),
        ensures
            r == self@.contains_key(key@),
    {
        self.find(key).is_some()
    }

    /// The value for `key`.
    pub fn get(&self, key: &str) -> (r: Option<&V>)
        requires
            self.wf(),
        ensures
            match r {
                Some(v) => self@.contains_key(key@) && *v == self@[key@],
                None => !self@.contains_key(key@),
            },
    {
        match self.find(key) {
            Some(i) => Some(&self.entries[i].1),
            None => None,
        }
    }

    /// Sets the value for `key`.
    pub fn insert(&mut self, key: String, value: V)
        requires
            old(self).wf(),
        ensures
            final(self).wf(),
            final(self)@ == old(self)@.insert(key@, value),
    {
        match self.find(key.as_str()) {
            Some(i) => {
                let ghost k = key@;
                self.entries.set(i, (key, value));
                proof {
                    old(self).all_entries();
                    let m = old(self)@.insert(k, value);
                    assert forall|q: Seq<char>| #[trigger] m.contains_key(q) implies exists|j: int|
                        0 <= j < self.entries@.len() && (#[trigger] self.entries@[j]).0@ == q by {
                        if q == k {
                            assert(self.entries@[i as int].0@ == q);
                        } else {
                            let j = choose|j: int|
                                0 <= j < old(self).entries@.len() && (
                                #[trigger] old(self).entries@[j]).0@ == q;
                            assert(self.entries@[j].0@ == q);
                        }
                    }
                    self.is_map(m);
                }
            },
            None => {
                let ghost k = key@;
                self.entries.push((key, value));
                proof {
                    old(self).all_entries();
                    let m = old(self)@.insert(k, value);
                    let n = old(self).entries@.len() as int;
                    assert(self.entries@[n].0@ == k);
                    assert forall|q: Seq<char>| #[trigger] m.contains_key(q) implies exists|j: int|
                        0 <= j < self.entries@.len() && (#[trigger] self.entries@[j]).0@ == q by {
                        if q != k {
                            let j = choose|j: int|
                                0 <= j < old(self).entries@.len() && (
                                #[trigger] old(self).entries@[j]).0@ == q;
                            assert(self.entries@[j].0@ == q);
                        }
                    }
                    self.is_map(m);
                }
            },
        }
    }

    /// Takes the value for `key` out.
    pub fn remove(&mut self, key: &str) -> (r: Option<V>)
        requires
            old(self).wf(),
        ensures
            final(self).wf(),
            final(self)@ == old(self)@.remove(key@),
            match r {
                Some(v) => old(self)@.contains_key(key@) && v == old(self)@[key@],
                None => !old(self)@.contains_key(key@),
            },
    {
        match self.find(key) {
            Some(i) => {
                let entry = self.entries.remove(i);
                proof {
                    old(self).all_entries();
                    let m = old(self)@.remove(key@);
                    assert forall|j: int| 0 <= j < self.entries@.len() implies m.contains_key(
                        (#[trigger] self.entries@[j]).0@,
                    ) && m[self.entries@[j].0@] == self.entries@[j].1 by {
                        let o = if j < i { j } else { j + 1 };
                        assert(self.entries@[j] == old(self).entries@[o]);
                        assert(old(self).entries@[i as int].0@ == key@);
                    }
                    assert forall|a: int, b: int|
                        0 <= a < self.entries@.len() && 0 <= b < self.entries@.len() && (
                        #[trigger] self.entries@[a]).0@ == (
                        #[trigger] self.entries@[b]).0@ implies a == b by {
                        let oa = if a < i { a } else { a + 1 };
                        let ob = if b < i { b } else { b + 1 };
                        assert(self.entries@[a] == old(self).entries@[oa]);
                        assert(self.entries@[b] == old(self).entries@[ob]);
                    }
                    assert forall|q: Seq<char>| #[trigger] m.contains_key(q) implies exists|j: int|
                        0 <= j < self.entries@.len() && (#[trigger] self.entries@[j]).0@ == q by {
                        let o = choose|o: int|
                            0 <= o < old(self).entries@.len() && (
                            #[trigger] old(self).entries@[o]).0@ == q;
                        let j = if o < i { o } else { o - 1 };
                        assert(self.entries@[j] == old(self).entries@[o]);
                    }
                    self.is_map(m);
                }
                Some(entry.1)
            },
            None => {
                assert(self@.remove(key@) =~= self@);
                None
            },
        }
    }

    /// The keys, in the order of the entries.
    pub closed spec fn keys(self) -> Seq<Seq<char>> {
        self.entries@.map_values(|e: (String, V)| e.0@)
    }

    /// The keys are those of the map, each once.
    pub proof fn keys_are_the_domain(self)
        requires
            self.wf(),
        ensures
            self.keys().no_duplicates(),
            forall|k: Seq<char>| self.keys().contains(k) <==> self@.contains_key(k),
    {
        self.all_entries();
        assert forall|k: Seq<char>| self.keys().contains(k) <==> self@.contains_key(k) by {
            if self.keys().contains(k) {
                let i = choose|i: int| 0 <= i < self.keys().len() && self.keys()[i] == k;
                assert(self.entries@[i].0@ == k);
            }
            if self@.contains_key(k) {
                let i = choose|i: int|
                    0 <= i < self.entries@.len() && (#[trigger] self.entries@[i]).0@ == k;
                assert(self.keys()[i] == k);
            }
        }
        assert forall|i: int, j: int| 0 <= i < j < self.keys().len() implies self.keys()[i]
            != self.keys()[j] by {
            assert(self.keys()[i] == self.entries@[i].0@);
            assert(self.keys()[j] == self.entries@[j].0@);
        }
    }

    /// How many keys there are.
    pub fn len(&self) -> (n: usize)
        ensures
            n == self.keys().len(),
    {
        self.entries.len()
    }

    /// The `i`-th key and its value.
    pub fn entry(&self, i: usize) -> (e: (&str, &V))
        requires
            self.wf(),
            i < self.keys().len(),
        ensures
            e.0@ == self.keys()[i as int],
            self@.contains_key(e.0@),
            *e.1 == self@[e.0@],
    {
        proof {
            self.slot_at(i as int);
        }
        (self.entries[i].0.as_str(), &self.entries[i].1)
    }
}

}
