//! A map kept as two sequences of one length: the keys, no two alike, and
//! beside each key its value.

use vstd::prelude::*;

verus! {

/// The map that has each of `keys` with the value at the same place in
/// `values`. Meant for keys that differ from one another.
pub open spec fn assoc<K, V>(keys: Seq<K>, values: Seq<V>) -> Map<K, V> {
    Map::new(|k: K| keys.contains(k), |k: K| values[keys.index_of(k)])
}

/// The key at `i` has the value at `i`.
pub proof fn lemma_assoc_entry<K, V>(keys: Seq<K>, values: Seq<V>, i: int)
    requires
        keys.no_duplicates(),
        0 <= i < keys.len(),
    ensures
        assoc(keys, values).contains_key(keys[i]),
        assoc(keys, values)[keys[i]] == values[i],
{
    let j = keys.index_of(keys[i]);
    assert(keys[j] == keys[i]);
}

/// A key that is not among `keys` is not in the map.
pub proof fn lemma_assoc_absent<K, V>(keys: Seq<K>, values: Seq<V>, key: K)
    requires
        forall|i: int| 0 <= i < keys.len() ==> #[trigger] keys[i] != key,
    ensures
        !assoc(keys, values).contains_key(key),
{
    if keys.contains(key) {
        let j = keys.index_of(key);
        assert(keys[j] == key);
    }
}

/// A key of the map is among `keys`.
pub proof fn lemma_assoc_place<K, V>(keys: Seq<K>, values: Seq<V>, key: K) -> (i: int)
    requires
        assoc(keys, values).contains_key(key),
    ensures
        0 <= i < keys.len(),
        keys[i] == key,
{
    keys.index_of(key)
}

/// Without keys the map is empty.
pub proof fn lemma_assoc_empty<K, V>(keys: Seq<K>, values: Seq<V>)
    requires
        keys.len() == 0,
    ensures
        assoc(keys, values) == Map::<K, V>::empty(),
{
    assert(assoc(keys, values) =~= Map::<K, V>::empty());
}

/// A new value at `i` is that value inserted for the key at `i`.
pub proof fn lemma_assoc_update<K, V>(keys: Seq<K>, values: Seq<V>, i: int, value: V)
    requires
        keys.no_duplicates(),
        keys.len() == values.len(),
        0 <= i < keys.len(),
    ensures
        assoc(keys, values.update(i, value)) == assoc(keys, values).insert(keys[i], value),
{
    let after = assoc(keys, values.update(i, value));
    let target = assoc(keys, values).insert(keys[i], value);
    lemma_assoc_entry(keys, values, i);
    assert forall|k: K| #[trigger] after.contains_key(k) implies after[k] == target[k] by {
        let j = keys.index_of(k);
        assert(keys[j] == k);
        lemma_assoc_entry(keys, values.update(i, value), j);
        lemma_assoc_entry(keys, values, j);
    }
    assert(after =~= target);
}

/// A key that is not among `keys`, put last with its value, is that value
/// inserted for that key.
pub proof fn lemma_assoc_push<K, V>(keys: Seq<K>, values: Seq<V>, key: K, value: V)
    requires
        keys.no_duplicates(),
        keys.len() == values.len(),
        forall|i: int| 0 <= i < keys.len() ==> #[trigger] keys[i] != key,
    ensures
        keys.push(key).no_duplicates(),
        assoc(keys.push(key), values.push(value)) == assoc(keys, values).insert(key, value),
{
    let n = keys.len() as int;
    let keys2 = keys.push(key);
    let values2 = values.push(value);
    let after = assoc(keys2, values2);
    let target = assoc(keys, values).insert(key, value);
    assert forall|k: K| after.contains_key(k) <==> target.contains_key(k) by {
        if after.contains_key(k) {
            let j = keys2.index_of(k);
            assert(keys2[j] == k);
            if j < n {
                assert(keys[j] == k);
                lemma_assoc_entry(keys, values, j);
            }
        }
        if target.contains_key(k) {
            if k == key {
                assert(keys2[n] == k);
            } else {
                let j = keys.index_of(k);
                assert(keys[j] == k);
                assert(keys2[j] == k);
            }
        }
    }
    assert forall|k: K| #[trigger] after.contains_key(k) implies after[k] == target[k] by {
        let j = keys2.index_of(k);
        assert(keys2[j] == k);
        lemma_assoc_entry(keys2, values2, j);
        if j < n {
            assert(keys[j] == k);
            lemma_assoc_entry(keys, values, j);
        }
    }
    assert(after =~= target);
}

/// The map has as many keys as there are in `keys`, and no more than finitely
/// many.
pub proof fn lemma_assoc_len<K, V>(keys: Seq<K>, values: Seq<V>)
    requires
        keys.no_duplicates(),
    ensures
        assoc(keys, values).dom().finite(),
        assoc(keys, values).dom().len() == keys.len(),
{
    keys.unique_seq_to_set();
    vstd::seq_lib::seq_to_set_is_finite(keys);
    assert(assoc(keys, values).dom() =~= keys.to_set());
}

} // verus!
