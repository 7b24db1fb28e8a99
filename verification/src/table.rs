//! A small map from strings to values that remembers the order of insertion.

use vstd::prelude::*;

verus! {

/// A map keyed by strings. No key occurs twice, and the keys keep the order
/// in which they were first inserted.
#[derive(Debug)]
pub struct Table<V> {
    entries: Vec<(String, V)>,
}

/// The keys of a list of entries, in the list's order.
spec fn keys_of<V>(entries: Seq<(String, V)>) -> Seq<Seq<char>> {
    Seq::new(entries.len(), |i: int| entries[i].0@)
}

impl<V> View for Table<V> {
    type V = Map<Seq<char>, V>;

    /// The mapping that the table holds.
    closed spec fn view(&self) -> Map<Seq<char>, V> {
        Map::new(
            |k: Seq<char>| self.key_order().contains(k),
            |k: Seq<char>| self.entries@[self.key_order().index_of(k)].1,
        )
    }
}

impl<V> Table<V> {
    /// The keys, in the order of their first insertion.
    pub closed spec fn key_order(&self) -> Seq<Seq<char>> {
        keys_of(self.entries@)
    }

    #[verifier::type_invariant]
    spec fn distinct_keys(&self) -> bool {
        self.key_order().no_duplicates()
    }

    /// An empty table.
    pub fn new() -> (t: Self)
        ensures
            t@ == Map::<Seq<char>, V>::empty(),
            t.key_order() == Seq::<Seq<char>>::empty(),
    {
        let t = Table { entries: Vec::new() };
        assert(t.key_order() =~= Seq::<Seq<char>>::empty());
        assert(t@ =~= Map::<Seq<char>, V>::empty());
        t
    }

    /// The number of keys.
    pub fn len(&self) -> (n: usize)
        ensures
            n == self.key_order().len(),
            n == self@.dom().len(),
            self@.dom().finite(),
            self.key_order().no_duplicates(),
    {
        proof {
            use_type_invariant(self);
            self.lemma_key_order_covers();
            self.key_order().unique_seq_to_set();
        }
        self.entries.len()
    }

    /// Where `key` stands in the order of insertion, if the table holds it.
    fn position(&self, key: &str) -> (r: Option<usize>)
        ensures
            r is Some <==> self.key_order().contains(key@),
            r matches Some(i) ==> i < self.key_order().len() && self.key_order()[i as int] == key@,
    {
        let wanted = key.to_owned();
        let mut i: usize = 0;
        while i < self.entries.len()
            invariant
                i <= self.entries.len(),
                wanted@ == key@,
                forall|j: int| 0 <= j < i ==> self.key_order()[j] != key@,
            decreases self.entries.len() - i,
        {
            if self.entries[i].0 == wanted {
                assert(self.key_order()[i as int] == key@);
                return Some(i);
            }
            i += 1;
        }
        None
    }

    /// The value under `key`, if the table holds the key.
    pub fn get(&self, key: &str) -> (r: Option<&V>)
        ensures
            r is Some <==> self@.contains_key(key@),
            r matches Some(v) ==> *v == self@[key@],
    {
        proof {
            use_type_invariant(self);
        }
        match self.position(key) {
            Some(i) => Some(&self.entries[i].1),
            None => None,
        }
    }

    /// Whether the table holds `key`.
    pub fn contains_key(&self, key: &str) -> (b: bool)
        ensures
            b == self@.contains_key(key@),
    {
        self.position(key).is_some()
    }

    /// Puts `value` under `key`. A key that is new goes to the end of the
    /// order; a key that the table holds already keeps its place and gets the
    /// new value.
    pub fn insert(&mut self, key: String, value: V)
        ensures
            final(self)@ == old(self)@.insert(key@, value),
            final(self).key_order() == if old(self)@.contains_key(key@) {
                old(self).key_order()
            } else {
                old(self).key_order().push(key@)
            },
    {
        proof {
            use_type_invariant(&*self);
        }
        let ghost before = *self;
        let found = self.position(key.as_str());
        let mut entries: Vec<(String, V)> = Vec::new();
        core::mem::swap(&mut self.entries, &mut entries);
        match found {
            Some(i) => {
                entries[i] = (key, value);
                assert(keys_of(entries@) =~= before.key_order());
            },
            None => {
                entries.push((key, value));
                assert(keys_of(entries@) =~= before.key_order().push(key@));
            },
        }
        self.entries = entries;
        proof {
            let old_keys = before.key_order();
            let new_keys = self.key_order();
            assert forall|k: Seq<char>| #[trigger]
                new_keys.contains(k) implies self.entries@[new_keys.index_of(k)].1 == (if k
                == key@ {
                value
            } else {
                before.entries@[old_keys.index_of(k)].1
            }) by {
                let a = new_keys.index_of(k);
                assert(new_keys[a] == k);
                if k != key@ {
                    assert(old_keys[a] == k);
                    assert(old_keys[old_keys.index_of(k)] == k);
                }
            }
            assert forall|k: Seq<char>|
                new_keys.contains(k) <==> (old_keys.contains(k) || k == key@) by {
                if old_keys.contains(k) {
                    assert(new_keys[old_keys.index_of(k)] == k);
                }
                if k == key@ {
                    let place = if found is Some {
                        found->0 as int
                    } else {
                        old_keys.len() as int
                    };
                    assert(new_keys[place] == k);
                }
                if new_keys.contains(k) && k != key@ {
                    assert(old_keys[new_keys.index_of(k)] == k);
                }
            }
            assert(self@.dom() =~= before@.insert(key@, value).dom());
            assert(self@ =~= before@.insert(key@, value));
        }
    }

    /// The keys, in the order of their first insertion.
    pub fn keys(&self) -> (names: Vec<String>)
        ensures
            names@.len() == self.key_order().len(),
            forall|i: int| 0 <= i < names@.len() ==> names@[i]@ == self.key_order()[i],
            self.key_order().no_duplicates(),
            self.key_order().to_set() == self@.dom(),
    {
        proof {
            use_type_invariant(self);
            self.lemma_key_order_covers();
        }
        let mut names: Vec<String> = Vec::new();
        let mut i: usize = 0;
        while i < self.entries.len()
            invariant
                i <= self.entries.len(),
                names@.len() == i,
                forall|j: int| 0 <= j < i ==> names@[j]@ == self.key_order()[j],
            decreases self.entries.len() - i,
        {
            names.push(self.entries[i].0.clone());
            i += 1;
        }
        names
    }

    /// The key at place `i` of the order of insertion, with its value.
    pub fn entry(&self, i: usize) -> (r: (&String, &V))
        requires
            i < self.key_order().len(),
        ensures
            r.0@ == self.key_order()[i as int],
            self@.contains_key(r.0@),
            *r.1 == self@[r.0@],
    {
        proof {
            use_type_invariant(self);
        }
        let e = &self.entries[i];
        assert(self.key_order()[i as int] == e.0@);
        (&e.0, &e.1)
    }

    /// The keys of the mapping are the keys of the order, and they are
    /// finitely many.
    pub proof fn lemma_key_order_covers(&self)
        ensures
            self.key_order().to_set() == self@.dom(),
            self@.dom().finite(),
    {
        assert(self.key_order().to_set() =~= self@.dom());
        vstd::seq_lib::seq_to_set_is_finite(self.key_order());
    }
}

} // verus!
