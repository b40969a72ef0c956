//! Association sequences: a finite map written down as a sequence of key/value
//! pairs in which no key occurs twice.
//!
//! The collections of this crate keep their entries in a `Vec` and describe
//! themselves by the map that the entries stand for. The lemmas here relate the
//! two: what a lookup finds, and what pushing or overwriting an entry does to the
//! map.

use vstd::prelude::*;

verus! {

/// No key occurs at two positions of `entries`.
pub open spec fn distinct_keys<K, V>(entries: Seq<(K, V)>) -> bool {
    forall|i: int, j: int|
        0 <= i < j < entries.len() ==> (#[trigger] entries[i]).0 != (#[trigger] entries[j]).0
}

/// `key` occurs in `entries`.
pub open spec fn has_key<K, V>(entries: Seq<(K, V)>, key: K) -> bool {
    exists|i: int| 0 <= i < entries.len() && (#[trigger] entries[i]).0 == key
}

/// A position at which `key` occurs in `entries`, if there is one.
pub open spec fn position_of<K, V>(entries: Seq<(K, V)>, key: K) -> int {
    choose|i: int| 0 <= i < entries.len() && (#[trigger] entries[i]).0 == key
}

/// The map that `entries` stands for.
pub open spec fn as_map<K, V>(entries: Seq<(K, V)>) -> Map<K, V> {
    Map::new(|key: K| has_key(entries, key), |key: K| entries[position_of(entries, key)].1)
}

/// The entry at position `at` is what the map holds under that entry's key.
pub proof fn lemma_entry_is_mapped<K, V>(entries: Seq<(K, V)>, at: int)
    requires
        distinct_keys(entries),
        0 <= at < entries.len(),
    ensures
        as_map(entries).contains_key(entries[at].0),
        as_map(entries)[entries[at].0] == entries[at].1,
{
    let key = entries[at].0;
    assert(has_key(entries, key));
    let found = position_of(entries, key);
    assert(entries[found].0 == key);
    if found < at {
        assert(entries[found].0 != entries[at].0);
    } else if at < found {
        assert(entries[at].0 != entries[found].0);
    }
}

/// A key that occurs at no position is not in the map.
pub proof fn lemma_missing_is_unmapped<K, V>(entries: Seq<(K, V)>, key: K)
    requires
        forall|i: int| 0 <= i < entries.len() ==> (#[trigger] entries[i]).0 != key,
    ensures
        !as_map(entries).contains_key(key),
{
}

/// Pushing an entry with a new key inserts it into the map.
pub proof fn lemma_push_inserts<K, V>(entries: Seq<(K, V)>, key: K, value: V)
    requires
        distinct_keys(entries),
        !has_key(entries, key),
    ensures
        distinct_keys(entries.push((key, value))),
        as_map(entries.push((key, value))) == as_map(entries).insert(key, value),
{
    let grown = entries.push((key, value));
    let wanted = as_map(entries).insert(key, value);
    assert forall|i: int, j: int| 0 <= i < j < grown.len() implies (#[trigger] grown[i]).0 != (
    #[trigger] grown[j]).0 by {
        if j < entries.len() {
            assert(entries[i].0 != entries[j].0);
        } else {
            assert(entries[i].0 != key);
        }
    }
    assert forall|k: K| #[trigger] as_map(grown).contains_key(k) == wanted.contains_key(k) by {
        if has_key(grown, k) {
            let at = position_of(grown, k);
            if at < entries.len() {
                assert(entries[at].0 == k);
            }
        }
        if has_key(entries, k) {
            assert(grown[position_of(entries, k)].0 == k);
        }
        if k == key {
            assert(grown[entries.len() as int].0 == k);
        }
    }
    assert forall|k: K| as_map(grown).contains_key(k) implies #[trigger] as_map(grown)[k]
        == wanted[k] by {
        let at = position_of(grown, k);
        lemma_entry_is_mapped(grown, at);
        if at < entries.len() {
            assert(entries[at] == grown[at]);
            lemma_entry_is_mapped(entries, at);
        }
    }
    assert(as_map(grown) =~= wanted);
}

/// Overwriting the value at the position of a key overwrites it in the map.
pub proof fn lemma_update_inserts<K, V>(entries: Seq<(K, V)>, at: int, value: V)
    requires
        distinct_keys(entries),
        0 <= at < entries.len(),
    ensures
        distinct_keys(entries.update(at, (entries[at].0, value))),
        as_map(entries.update(at, (entries[at].0, value))) == as_map(entries).insert(
            entries[at].0,
            value,
        ),
{
    let key = entries[at].0;
    let changed = entries.update(at, (key, value));
    let wanted = as_map(entries).insert(key, value);
    assert forall|i: int| 0 <= i < entries.len() implies (#[trigger] changed[i]).0
        == entries[i].0 by {}
    assert forall|i: int, j: int| 0 <= i < j < changed.len() implies (#[trigger] changed[i]).0 != (
    #[trigger] changed[j]).0 by {
        assert(entries[i].0 != entries[j].0);
    }
    assert forall|k: K| #[trigger] as_map(changed).contains_key(k) == wanted.contains_key(k) by {
        if has_key(changed, k) {
            assert(entries[position_of(changed, k)].0 == k);
        }
        if has_key(entries, k) {
            assert(changed[position_of(entries, k)].0 == k);
        }
        if k == key {
            assert(changed[at].0 == k);
        }
    }
    assert forall|k: K| as_map(changed).contains_key(k) implies #[trigger] as_map(changed)[k]
        == wanted[k] by {
        let found = position_of(changed, k);
        lemma_entry_is_mapped(changed, found);
        if found != at {
            assert(entries[found] == changed[found]);
            lemma_entry_is_mapped(entries, found);
        }
    }
    assert(as_map(changed) =~= wanted);
}

/// The empty sequence stands for the empty map.
pub proof fn lemma_empty_stands_for_empty<K, V>()
    ensures
        distinct_keys(Seq::<(K, V)>::empty()),
        as_map(Seq::<(K, V)>::empty()) == Map::<K, V>::empty(),
{
    assert(as_map(Seq::<(K, V)>::empty()) =~= Map::<K, V>::empty());
}

} // verus!
