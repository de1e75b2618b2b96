//! Association lists as maps.
//!
//! The database keeps each of its indexes as a vector of key-value entries
//! with pairwise distinct keys; contracts speak of the mathematical map the
//! vector denotes. The lemmas here relate the vector operations (lookup,
//! overwrite, push, remove) to `Map` operations.

use vstd::prelude::*;

verus! {

/// The map an association list denotes; a later entry would win, though a
/// well-formed store never repeats a key.
pub open spec fn map_of<K, V>(entries: Seq<(K, V)>) -> Map<K, V>
    decreases entries.len(),
{
    if entries.len() == 0 {
        Map::empty()
    } else {
        map_of(entries.drop_last()).insert(entries.last().0, entries.last().1)
    }
}

/// No key occurs twice.
pub open spec fn distinct_keys<K, V>(entries: Seq<(K, V)>) -> bool {
    forall|i: int, j: int|
        0 <= i < j < entries.len() ==> (#[trigger] entries[i]).0 != (#[trigger] entries[j]).0
}

/// A key that occurs in no entry is not in the map.
pub proof fn lemma_map_of_absent<K, V>(entries: Seq<(K, V)>, k: K)
    requires
        forall|i: int| 0 <= i < entries.len() ==> (#[trigger] entries[i]).0 != k,
    ensures
        !map_of(entries).contains_key(k),
    decreases entries.len(),
{
    if entries.len() > 0 {
        assert(forall|i: int|
            0 <= i < entries.drop_last().len() ==> (#[trigger] entries.drop_last()[i]).0 != k);
        lemma_map_of_absent(entries.drop_last(), k);
    }
}

/// With distinct keys, the entry at any index is what the map holds for
/// its key.
pub proof fn lemma_map_of_present<K, V>(entries: Seq<(K, V)>, i: int)
    requires
        distinct_keys(entries),
        0 <= i < entries.len(),
    ensures
        map_of(entries).contains_key(entries[i].0),
        map_of(entries)[entries[i].0] == entries[i].1,
    decreases entries.len(),
{
    if i < entries.len() - 1 {
        assert(distinct_keys(entries.drop_last())) by {
            assert(forall|x: int, y: int|
                0 <= x < y < entries.drop_last().len() ==> (#[trigger] entries.drop_last()[x]).0
                    != (#[trigger] entries.drop_last()[y]).0) by {
                assert(forall|x: int|
                    0 <= x < entries.drop_last().len() ==> entries.drop_last()[x] == entries[x]);
            }
        }
        lemma_map_of_present(entries.drop_last(), i);
        assert(entries[i].0 != entries.last().0);
    }
}

/// Every key of the map occurs in some entry.
pub proof fn lemma_map_of_key_occurs<K, V>(entries: Seq<(K, V)>, k: K)
    requires
        map_of(entries).contains_key(k),
    ensures
        exists|i: int| 0 <= i < entries.len() && (#[trigger] entries[i]).0 == k,
    decreases entries.len(),
{
    if entries.len() > 0 {
        if entries.last().0 == k {
            assert(entries[entries.len() - 1].0 == k);
        } else {
            lemma_map_of_key_occurs(entries.drop_last(), k);
            let i = choose|i: int|
                0 <= i < entries.drop_last().len() && (#[trigger] entries.drop_last()[i]).0 == k;
            assert(entries[i].0 == k);
        }
    }
}

/// Appending an entry with a fresh key inserts it into the map and keeps
/// the keys distinct.
pub proof fn lemma_map_of_push<K, V>(entries: Seq<(K, V)>, k: K, v: V)
    requires
        distinct_keys(entries),
        forall|i: int| 0 <= i < entries.len() ==> (#[trigger] entries[i]).0 != k,
    ensures
        map_of(entries.push((k, v))) == map_of(entries).insert(k, v),
        distinct_keys(entries.push((k, v))),
{
    let pushed = entries.push((k, v));
    assert(pushed.drop_last() =~= entries);
    assert(pushed.last() == (k, v));
    assert(forall|x: int, y: int|
        0 <= x < y < pushed.len() ==> (#[trigger] pushed[x]).0 != (#[trigger] pushed[y]).0) by {
        assert(forall|x: int| 0 <= x < entries.len() ==> pushed[x] == entries[x]);
    }
}

/// Overwriting the entry at an index re-inserts its key with the new value
/// and keeps the keys distinct.
pub proof fn lemma_map_of_update<K, V>(entries: Seq<(K, V)>, i: int, v: V)
    requires
        distinct_keys(entries),
        0 <= i < entries.len(),
    ensures
        map_of(entries.update(i, (entries[i].0, v))) == map_of(entries).insert(entries[i].0, v),
        distinct_keys(entries.update(i, (entries[i].0, v))),
    decreases entries.len(),
{
    let k = entries[i].0;
    let updated = entries.update(i, (k, v));
    assert(forall|x: int, y: int|
        0 <= x < y < updated.len() ==> (#[trigger] updated[x]).0 != (#[trigger] updated[y]).0)
        by {
        assert(forall|x: int| 0 <= x < entries.len() && x != i ==> updated[x] == entries[x]);
        assert(updated[i].0 == entries[i].0);
    }
    if i == entries.len() - 1 {
        assert(updated.drop_last() =~= entries.drop_last());
        assert(updated.last() == (k, v));
        assert(map_of(updated) == map_of(entries.drop_last()).insert(k, v));
        assert(map_of(entries) == map_of(entries.drop_last()).insert(k, entries[i].1));
        assert(map_of(entries).insert(k, v) =~= map_of(entries.drop_last()).insert(k, v));
    } else {
        assert(distinct_keys(entries.drop_last())) by {
            assert(forall|x: int|
                0 <= x < entries.drop_last().len() ==> entries.drop_last()[x] == entries[x]);
        }
        lemma_map_of_update(entries.drop_last(), i, v);
        assert(updated.drop_last() =~= entries.drop_last().update(i, (k, v)));
        assert(updated.last() == entries.last());
        assert(map_of(updated) == map_of(entries.drop_last()).insert(k, v).insert(
            entries.last().0,
            entries.last().1,
        ));
        assert(entries.last().0 != k);
        assert(map_of(entries.drop_last()).insert(k, v).insert(entries.last().0, entries.last().1)
            =~= map_of(entries.drop_last()).insert(entries.last().0, entries.last().1).insert(
            k,
            v,
        ));
    }
}

/// Removing the entry at an index removes its key from the map and keeps
/// the keys distinct.
pub proof fn lemma_map_of_remove<K, V>(entries: Seq<(K, V)>, i: int)
    requires
        distinct_keys(entries),
        0 <= i < entries.len(),
    ensures
        map_of(entries.remove(i)) == map_of(entries).remove(entries[i].0),
        distinct_keys(entries.remove(i)),
    decreases entries.len(),
{
    let k = entries[i].0;
    let removed = entries.remove(i);
    assert(forall|x: int, y: int|
        0 <= x < y < removed.len() ==> (#[trigger] removed[x]).0 != (#[trigger] removed[y]).0)
        by {
        assert(forall|x: int|
            0 <= x < removed.len() ==> removed[x] == if x < i {
                entries[x]
            } else {
                entries[x + 1]
            });
    }
    if i == entries.len() - 1 {
        assert(removed =~= entries.drop_last());
        assert(forall|x: int|
            0 <= x < entries.drop_last().len() ==> (#[trigger] entries.drop_last()[x]).0 != k);
        lemma_map_of_absent(entries.drop_last(), k);
        assert(map_of(entries) == map_of(entries.drop_last()).insert(k, entries[i].1));
        assert(map_of(entries).remove(k) =~= map_of(entries.drop_last()));
    } else {
        assert(distinct_keys(entries.drop_last())) by {
            assert(forall|x: int|
                0 <= x < entries.drop_last().len() ==> entries.drop_last()[x] == entries[x]);
        }
        lemma_map_of_remove(entries.drop_last(), i);
        assert(removed.drop_last() =~= entries.drop_last().remove(i));
        assert(removed.last() == entries.last());
        assert(map_of(removed) == map_of(entries.drop_last()).remove(k).insert(
            entries.last().0,
            entries.last().1,
        ));
        assert(entries.last().0 != k);
        assert(map_of(entries.drop_last()).remove(k).insert(entries.last().0, entries.last().1)
            =~= map_of(entries.drop_last()).insert(entries.last().0, entries.last().1).remove(k));
    }
}

} // verus!
