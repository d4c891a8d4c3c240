//! The fields of one block of the status file: a map from key to value, both
//! text.

use vstd::prelude::*;
use vstd::std_specs::cmp::PartialEqSpecImpl;
use crate::assoc::{
    assoc, lemma_assoc_absent, lemma_assoc_empty, lemma_assoc_entry, lemma_assoc_len,
    lemma_assoc_place, lemma_assoc_push, lemma_assoc_update,
};
use crate::text::same_text;

verus! {

/// A map from key to value that remembers the order in which its keys first
/// came. Its view is the mathematical map from each key's characters to its
/// value's characters.
#[derive(Debug)]
pub struct KeyValues {
    entries: Vec<(String, String)>,
}

/// The keys of `entries`, as characters, in order.
pub open spec fn keys_of(entries: Seq<(String, String)>) -> Seq<Seq<char>> {
    Seq::new(entries.len(), |i: int| entries[i].0@)
}

/// The values of `entries`, as characters, in order.
pub open spec fn values_of(entries: Seq<(String, String)>) -> Seq<Seq<char>> {
    Seq::new(entries.len(), |i: int| entries[i].1@)
}

impl View for KeyValues {
    type V = Map<Seq<char>, Seq<char>>;

    closed spec fn view(&self) -> Map<Seq<char>, Seq<char>> {
        assoc(keys_of(self.entries@), values_of(self.entries@))
    }
}

impl KeyValues {
    /// No key stands in two entries.
    #[verifier::type_invariant]
    spec fn keys_differ(self) -> bool {
        keys_of(self.entries@).no_duplicates()
    }

    /// The keys, as characters, in the order in which they first came.
    pub closed spec fn keys(&self) -> Seq<Seq<char>> {
        keys_of(self.entries@)
    }

    /// A map without keys.
    pub fn new() -> (r: Self)
        ensures
            r@ == Map::<Seq<char>, Seq<char>>::empty(),
            r.keys() == Seq::<Seq<char>>::empty(),
    {
        let r = KeyValues { entries: Vec::new() };
        proof {
            lemma_assoc_empty(keys_of(r.entries@), values_of(r.entries@));
            assert(r.keys() =~= Seq::<Seq<char>>::empty());
        }
        r
    }

    /// The place of `key` among the entries.
    fn position(&self, key: &str) -> (r: Option<usize>)
        ensures
            match r {
                Some(i) => i < self.entries.len() && self.entries[i as int].0@ == key@,
                None => forall|i: int|
                    0 <= i < self.entries.len() ==> #[trigger] keys_of(self.entries@)[i] != key@,
            },
    {
        let mut i: usize = 0;
        while i < self.entries.len()
            invariant
                i <= self.entries.len(),
                forall|j: int| 0 <= j < i ==> #[trigger] keys_of(self.entries@)[j] != key@,
            decreases self.entries.len() - i,
        {
            if same_text(self.entries[i].0.as_str(), key) {
                return Some(i);
            }
            i += 1;
        }
        None
    }

    /// The value of `key`, where the map has that key.
    pub fn get(&self, key: &str) -> (r: Option<&String>)
        ensures
            match r {
                Some(value) => self@.contains_key(key@) && value@ == self@[key@],
                None => !self@.contains_key(key@),
            },
    {
        proof {
            use_type_invariant(self);
        }
        let ghost keys = keys_of(self.entries@);
        let ghost values = values_of(self.entries@);
        match self.position(key) {
            Some(i) => {
                proof {
                    lemma_assoc_entry(keys, values, i as int);
                }
                Some(&self.entries[i].1)
            },
            None => {
                proof {
                    lemma_assoc_absent(keys, values, key@);
                }
                None
            },
        }
    }

    /// Whether the map has `key`.
    pub fn contains_key(&self, key: &str) -> (r: bool)
        ensures
            r == self@.contains_key(key@),
    {
        self.get(key).is_some()
    }

    /// Gives `key` the value `value`, in place of the value it had, if any.
    /// A key that is new comes last in the order of keys.
    pub fn insert(&mut self, key: String, value: String)
        ensures
            final(self)@ == old(self)@.insert(key@, value@),
            final(self).keys() == if old(self)@.contains_key(key@) {
                old(self).keys()
            } else {
                old(self).keys().push(key@)
            },
    {
        proof {
            use_type_invariant(&*self);
        }
        let found = self.position(key.as_str());
        let mut entries: Vec<(String, String)> = Vec::new();
        std::mem::swap(&mut self.entries, &mut entries);
        let ghost keys = keys_of(entries@);
        let ghost values = values_of(entries@);
        match found {
            Some(i) => {
                entries.set(i, (key, value));
                proof {
                    lemma_assoc_entry(keys, values, i as int);
                    lemma_assoc_update(keys, values, i as int, value@);
                    assert(keys_of(entries@) =~= keys);
                    assert(values_of(entries@) =~= values.update(i as int, value@));
                }
            },
            None => {
                entries.push((key, value));
                proof {
                    lemma_assoc_absent(keys, values, key@);
                    lemma_assoc_push(keys, values, key@, value@);
                    assert(keys_of(entries@) =~= keys.push(key@));
                    assert(values_of(entries@) =~= values.push(value@));
                }
            },
        }
        self.entries = entries;
    }

    /// The number of keys.
    pub fn len(&self) -> (r: usize)
        ensures
            r == self.keys().len(),
            r == self@.dom().len(),
            self@.dom().finite(),
    {
        proof {
            use_type_invariant(self);
            lemma_assoc_len(keys_of(self.entries@), values_of(self.entries@));
        }
        self.entries.len()
    }

    /// Whether the map has no key.
    pub fn is_empty(&self) -> (r: bool)
        ensures
            r == (self@ == Map::<Seq<char>, Seq<char>>::empty()),
    {
        proof {
            let keys = keys_of(self.entries@);
            let values = values_of(self.entries@);
            if self.entries.len() == 0 {
                lemma_assoc_empty(keys, values);
            } else {
                use_type_invariant(self);
                lemma_assoc_entry(keys, values, 0);
            }
        }
        self.entries.len() == 0
    }

    /// The key and the value at place `i` in the order of keys.
    pub fn entry(&self, i: usize) -> (r: (&String, &String))
        requires
            i < self.keys().len(),
        ensures
            r.0@ == self.keys()[i as int],
            self@.contains_key(r.0@),
            r.1@ == self@[r.0@],
    {
        proof {
            use_type_invariant(self);
            lemma_assoc_entry(keys_of(self.entries@), values_of(self.entries@), i as int);
        }
        (&self.entries[i].0, &self.entries[i].1)
    }

    /// Whether every key of `self` has the same value in `other`.
    fn within(&self, other: &KeyValues) -> (r: bool)
        ensures
            r == self@.submap_of(other@),
    {
        proof {
            use_type_invariant(self);
        }
        let ghost keys = keys_of(self.entries@);
        let ghost values = values_of(self.entries@);
        let mut i: usize = 0;
        while i < self.entries.len()
            invariant
                i <= self.entries.len(),
                keys == keys_of(self.entries@),
                values == values_of(self.entries@),
                keys.no_duplicates(),
                forall|j: int|
                    0 <= j < i ==> other@.contains_key(#[trigger] keys[j]) && other@[keys[j]]
                        == values[j],
            decreases self.entries.len() - i,
        {
            proof {
                lemma_assoc_entry(keys, values, i as int);
            }
            match other.get(self.entries[i].0.as_str()) {
                Some(value) => {
                    if !same_text(value.as_str(), self.entries[i].1.as_str()) {
                        return false;
                    }
                },
                None => {
                    return false;
                },
            }
            i += 1;
        }
        proof {
            assert forall|k: Seq<char>| #[trigger]
                self@.dom().contains(k) implies other@.dom().contains(k) && self@[k]
                == other@[k] by {
                let j = lemma_assoc_place(keys, values, k);
                lemma_assoc_entry(keys, values, j);
            }
        }
        true
    }
}

impl Clone for KeyValues {
    fn clone(&self) -> (r: Self)
        ensures
            r@ == self@,
            r.keys() == self.keys(),
    {
        proof {
            use_type_invariant(self);
        }
        let mut entries: Vec<(String, String)> = Vec::new();
        let mut i: usize = 0;
        while i < self.entries.len()
            invariant
                i <= self.entries.len(),
                entries@ == self.entries@.take(i as int),
            decreases self.entries.len() - i,
        {
            entries.push((self.entries[i].0.clone(), self.entries[i].1.clone()));
            assert(entries@ =~= self.entries@.take(i + 1));
            i += 1;
        }
        assert(entries@ =~= self.entries@);
        KeyValues { entries }
    }
}

impl PartialEq for KeyValues {
    fn eq(&self, other: &KeyValues) -> (r: bool) {
        let r = self.within(other) && other.within(self);
        proof {
            if r {
                assert(self@ =~= other@);
            }
        }
        r
    }
}

impl PartialEqSpecImpl for KeyValues {
    open spec fn obeys_eq_spec() -> bool {
        true
    }

    open spec fn eq_spec(&self, other: &KeyValues) -> bool {
        self@ == other@
    }
}

} // verus!
