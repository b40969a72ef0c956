//! The annotations of an observed object: a finite map from key to value.

use crate::assoc::{
    as_map, distinct_keys, has_key, lemma_empty_stands_for_empty, lemma_entry_is_mapped,
    lemma_missing_is_unmapped, lemma_push_inserts, lemma_update_inserts,
};
use vstd::prelude::*;

verus! {

/// One annotation as it is stored.
#[derive(Debug)]
struct Annotation {
    key: String,
    value: String,
}

/// The annotations of one object. No key is held twice; inserting under a key
/// that is present replaces its value.
#[derive(Debug)]
pub struct Annotations {
    entries: Vec<Annotation>,
}

/// The entries, each as a pair of texts.
spec fn pairs_of(entries: Seq<Annotation>) -> Seq<(Seq<char>, Seq<char>)> {
    Seq::new(entries.len(), |i: int| (entries[i].key@, entries[i].value@))
}

impl View for Annotations {
    type V = Map<Seq<char>, Seq<char>>;

    /// The map from each key to its value.
    closed spec fn view(&self) -> Map<Seq<char>, Seq<char>> {
        as_map(self.pairs())
    }
}

impl Annotations {
    /// The stored entries, each as a pair of texts.
    closed spec fn pairs(&self) -> Seq<(Seq<char>, Seq<char>)> {
        pairs_of(self.entries@)
    }

    #[verifier::type_invariant]
    spec fn well_formed(&self) -> bool {
        distinct_keys(self.pairs())
    }

    /// No annotations.
    pub fn new() -> (annotations: Annotations)
        ensures
            annotations@ == Map::<Seq<char>, Seq<char>>::empty(),
    {
        let annotations = Annotations { entries: Vec::new() };
        proof {
            lemma_empty_stands_for_empty::<Seq<char>, Seq<char>>();
            assert(annotations.pairs() =~= Seq::empty());
        }
        annotations
    }

    /// The position of `key` among the entries.
    fn position(&self, key: &String) -> (found: Option<usize>)
        ensures
            match found {
                Some(at) => at < self.entries@.len() && self.entries@[at as int].key@ == key@,
                None => !has_key(self.pairs(), key@),
            },
    {
        let mut at: usize = 0;
        while at < self.entries.len()
            invariant
                at <= self.entries@.len(),
                forall|i: int| 0 <= i < at ==> (#[trigger] self.pairs()[i]).0 != key@,
            decreases self.entries@.len() - at,
        {
            if self.entries[at].key == *key {
                return Some(at);
            }
            at += 1;
        }
        None
    }

    /// Sets the annotation `key` to `value`, whether or not it was present.
    pub fn insert(&mut self, key: String, value: String)
        ensures
            final(self)@ == old(self)@.insert(key@, value@),
    {
        proof {
            use_type_invariant(&*self);
        }
        let ghost before = self.pairs();
        let found = self.position(&key);
        let mut entries: Vec<Annotation> = Vec::new();
        core::mem::swap(&mut self.entries, &mut entries);
        match found {
            Some(at) => {
                proof {
                    lemma_update_inserts(before, at as int, value@);
                }
                entries.set(at, Annotation { key, value });
                assert(pairs_of(entries@) =~= before.update(
                    at as int,
                    (before[at as int].0, value@),
                ));
                self.entries = entries;
            },
            None => {
                proof {
                    lemma_push_inserts(before, key@, value@);
                }
                entries.push(Annotation { key, value });
                assert(pairs_of(entries@) =~= before.push((key@, value@)));
                self.entries = entries;
            },
        }
    }

    /// The value of the annotation `key`, if the object carries it.
    pub fn get(&self, key: &String) -> (found: Option<&String>)
        ensures
            found.is_some() == self@.contains_key(key@),
            found matches Some(value) ==> value@ == self@[key@],
    {
        proof {
            use_type_invariant(self);
        }
        match self.position(key) {
            Some(at) => {
                proof {
                    lemma_entry_is_mapped(self.pairs(), at as int);
                }
                Some(&self.entries[at].value)
            },
            None => {
                proof {
                    lemma_missing_is_unmapped(self.pairs(), key@);
                }
                None
            },
        }
    }

    /// Whether the object carries the annotation `key`.
    pub fn contains_key(&self, key: &String) -> (present: bool)
        ensures
            present == self@.contains_key(key@),
    {
        self.get(key).is_some()
    }
}

} // verus!
