//! A map keyed by strings that keeps its keys in insertion order.

use vstd::prelude::*;

use crate::text::str_eq;

verus! {

/// A string-keyed map: each key occurs once, in the order it was first inserted.
pub struct StrMap<V> {
    entries: Vec<(String, V)>,
}

impl<V> StrMap<V> {
    #[verifier::type_invariant]
    spec fn keys_distinct(self) -> bool {
        self.keys().no_duplicates()
    }

    /// The keys, in insertion order.
    pub closed spec fn keys(self) -> Seq<Seq<char>> {
        self.entries@.map_values(|e: (String, V)| e.0@)
    }

    /// The key/value contents of the map.
    pub closed spec fn contents(self) -> Map<Seq<char>, V> {
        Map::new(
            |k: Seq<char>| self.keys().contains(k),
            |k: Seq<char>| self.entries@[self.keys().index_of(k)].1,
        )
    }

    proof fn lemma_index(self, i: int)
        requires
            self.keys_distinct(),
            0 <= i < self.keys().len(),
        ensures
            self.contents().contains_key(self.keys()[i]),
            self.contents()[self.keys()[i]] == self.entries@[i].1,
            self.keys().index_of(self.keys()[i]) == i,
    {
        let k = self.keys()[i];
        assert(self.keys().contains(k));
        let j = self.keys().index_of(k);
        assert(self.keys()[j] == k);
    }

    /// Every key of the insertion order is a key of the map.
    pub proof fn lemma_key_in_view(self, i: int)
        requires
            0 <= i < self.keys().len(),
        ensures
            self@.contains_key(self.keys()[i]),
    {
        assert(self.keys().contains(self.keys()[i]));
    }

    /// An empty map.
    pub fn new() -> (m: Self)
        ensures
            m@ == Map::<Seq<char>, V>::empty(),
            m.keys() == Seq::<Seq<char>>::empty(),
    {
        let m = StrMap { entries: Vec::new() };
        assert(m.keys() =~= Seq::<Seq<char>>::empty());
        assert(m.contents() =~= Map::<Seq<char>, V>::empty());
        m
    }

    /// The number of keys, with the facts that tie `keys` to the contents.
    pub fn len(&self) -> (n: usize)
        ensures
            n == self.keys().len(),
            self.keys().no_duplicates(),
            self@.dom() == self.keys().to_set(),
            self@.dom().finite(),
            self@.dom().len() == n,
    {
        proof {
            use_type_invariant(self);
            self.keys().unique_seq_to_set();
            vstd::seq_lib::seq_to_set_is_finite(self.keys());
            assert(self.contents().dom() =~= self.keys().to_set());
        }
        self.entries.len()
    }

    /// The key at position `i` of the insertion order.
    pub fn key_at(&self, i: usize) -> (k: &String)
        requires
            i < self.keys().len(),
        ensures
            k@ == self.keys()[i as int],
            self@.contains_key(k@),
    {
        proof {
            use_type_invariant(self);
            self.lemma_index(i as int);
        }
        &self.entries[i].0
    }

    /// The value stored under the key at position `i`.
    pub fn value_at(&self, i: usize) -> (v: &V)
        requires
            i < self.keys().len(),
        ensures
            self@.contains_key(self.keys()[i as int]),
            *v == self@[self.keys()[i as int]],
    {
        proof {
            use_type_invariant(self);
            self.lemma_index(i as int);
        }
        &self.entries[i].1
    }

    /// The position of key `k`, if present.
    pub fn position(&self, k: &str) -> (r: Option<usize>)
        ensures
            match r {
                Some(i) => i < self.keys().len() && self.keys()[i as int] == k@,
                None => !self@.contains_key(k@),
            },
    {
        let n = self.entries.len();
        let mut i: usize = 0;
        while i < n
            invariant
                n == self.entries@.len(),
                i <= n,
                forall|j: int| 0 <= j < i ==> self.keys()[j] != k@,
            decreases n - i,
        {
            if str_eq(self.entries[i].0.as_str(), k) {
                return Some(i);
            }
            i = i + 1;
        }
        None
    }

    /// Whether key `k` is present.
    pub fn contains_key(&self, k: &str) -> (r: bool)
        ensures
            r == self@.contains_key(k@),
    {
        self.position(k).is_some()
    }

    /// The value stored under `k`, if any.
    pub fn get(&self, k: &str) -> (r: Option<&V>)
        ensures
            match r {
                Some(v) => self@.contains_key(k@) && *v == self@[k@],
                None => !self@.contains_key(k@),
            },
    {
        match self.position(k) {
            Some(i) => Some(self.value_at(i)),
            None => None,
        }
    }

    /// Stores `v` under `k`, replacing any previous value; a new key goes last.
    pub fn insert(&mut self, k: String, v: V)
        ensures
            final(self)@ == old(self)@.insert(k@, v),
            old(self)@.contains_key(k@) ==> final(self).keys() == old(self).keys(),
            !old(self)@.contains_key(k@) ==> final(self).keys() == old(self).keys().push(k@),
    {
        proof {
            use_type_invariant(&*self);
        }
        let ghost old_self = *self;
        match self.position(k.as_str()) {
            Some(i) => {
                let ghost key = k@;
                let mut entries: Vec<(String, V)> = Vec::new();
                std::mem::swap(&mut entries, &mut self.entries);
                entries.set(i, (k, v));
                proof {
                    assert(entries@.map_values(|e: (String, V)| e.0@) =~= old_self.keys());
                }
                self.entries = entries;
                proof {
                    assert(self.keys() =~= old_self.keys());
                    assert forall|x: Seq<char>| #[trigger]
                        self.contents().contains_key(x) implies self.contents()[x]
                        == old_self.contents().insert(key, v)[x] by {
                        let j = self.keys().index_of(x);
                        old_self.lemma_index(j);
                        self.lemma_index(j);
                        old_self.lemma_index(i as int);
                    }
                    assert(self.contents() =~= old_self.contents().insert(key, v));
                }
            },
            None => {
                let ghost key = k@;
                let mut entries: Vec<(String, V)> = Vec::new();
                std::mem::swap(&mut entries, &mut self.entries);
                entries.push((k, v));
                proof {
                    assert(entries@.map_values(|e: (String, V)| e.0@) =~= old_self.keys().push(key));
                    assert(!old_self.keys().contains(key));
                }
                self.entries = entries;
                proof {
                    assert(self.keys() =~= old_self.keys().push(key));
                    assert forall|x: Seq<char>| #[trigger]
                        self.contents().contains_key(x) implies self.contents()[x]
                        == old_self.contents().insert(key, v)[x] by {
                        let j = self.keys().index_of(x);
                        self.lemma_index(j);
                        if j < old_self.keys().len() {
                            old_self.lemma_index(j);
                        }
                    }
                    assert forall|x: Seq<char>|
                        old_self.contents().contains_key(x) implies #[trigger]
                        self.contents().contains_key(x) by {
                        let j = old_self.keys().index_of(x);
                        assert(self.keys()[j] == x);
                    }
                    assert(self.keys()[old_self.keys().len() as int] == key);
                    assert(self.contents() =~= old_self.contents().insert(key, v));
                }
            },
        }
    }

    /// Removes key `k`, returning its value if it was present.
    pub fn remove(&mut self, k: &str) -> (r: Option<V>)
        ensures
            final(self)@ == old(self)@.remove(k@),
            match r {
                Some(v) => old(self)@.contains_key(k@) && v == old(self)@[k@],
                None => !old(self)@.contains_key(k@),
            },
    {
        proof {
            use_type_invariant(&*self);
        }
        let ghost old_self = *self;
        match self.position(k) {
            Some(i) => {
                let mut entries: Vec<(String, V)> = Vec::new();
                std::mem::swap(&mut entries, &mut self.entries);
                let e = entries.remove(i);
                proof {
                    assert(entries@.map_values(|e: (String, V)| e.0@) =~= old_self.keys().remove(
                        i as int,
                    ));
                    assert forall|a: int, b: int|
                        0 <= a < entries@.len() && 0 <= b < entries@.len() && a != b implies
                        entries@[a].0@ != entries@[b].0@ by {
                        let a2 = if a < i { a } else { a + 1 };
                        let b2 = if b < i { b } else { b + 1 };
                        assert(old_self.keys()[a2] == entries@[a].0@);
                        assert(old_self.keys()[b2] == entries@[b].0@);
                    }
                }
                self.entries = entries;
                proof {
                    old_self.lemma_index(i as int);
                    assert(self.keys() =~= old_self.keys().remove(i as int));
                    assert forall|x: Seq<char>| #[trigger]
                        self.contents().contains_key(x) implies self.contents()[x]
                        == old_self.contents().remove(k@)[x] by {
                        let j = self.keys().index_of(x);
                        self.lemma_index(j);
                        if j < i {
                            old_self.lemma_index(j);
                        } else {
                            old_self.lemma_index(j + 1);
                        }
                    }
                    assert forall|x: Seq<char>| #[trigger]
                        old_self.contents().remove(k@).contains_key(x) implies
                        self.contents().contains_key(x) by {
                        let j = old_self.keys().index_of(x);
                        old_self.lemma_index(j);
                        if j < i {
                            assert(self.keys()[j] == x);
                        } else {
                            assert(self.keys()[j - 1] == x);
                        }
                    }
                    assert(self.contents() =~= old_self.contents().remove(k@));
                }
                Some(e.1)
            },
            None => {
                assert(self.contents() =~= old_self.contents().remove(k@));
                None
            },
        }
    }

    /// The entries, in insertion order.
    pub fn into_entries(self) -> (es: Vec<(String, V)>)
        ensures
            es@.len() == self.keys().len(),
            forall|i: int|
                0 <= i < es@.len() ==> (#[trigger] es@[i]).0@ == self.keys()[i] && es@[i].1
                    == self@[self.keys()[i]],
    {
        proof {
            use_type_invariant(&self);
            assert forall|i: int| 0 <= i < self.keys().len() implies self.entries@[i].1
                == self@[self.keys()[i]] by {
                self.lemma_index(i);
            }
        }
        self.entries
    }
}

impl<V> View for StrMap<V> {
    type V = Map<Seq<char>, V>;

    open spec fn view(&self) -> Map<Seq<char>, V> {
        self.contents()
    }
}

} // verus!
