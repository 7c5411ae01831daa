//! The mapping denoted by a sequence of keyed entries.
//!
//! The store and the rate estimator keep their per-key state in vectors of
//! entries with pairwise distinct keys. These spec functions and lemmas
//! relate such a vector to the `Map` it denotes, so that contracts can speak
//! of the mapping while the code works on the vector.

use vstd::prelude::*;

verus! {

/// The mapping that a sequence of keyed entries denotes; with pairwise
/// distinct keys every entry is visible.
pub open spec fn assoc_map<E, V>(
    entries: Seq<E>,
    key_of: spec_fn(E) -> Seq<char>,
    val_of: spec_fn(E) -> V,
) -> Map<Seq<char>, V>
    decreases entries.len(),
{
    if entries.len() == 0 {
        Map::empty()
    } else {
        assoc_map(entries.drop_last(), key_of, val_of).insert(
            key_of(entries.last()),
            val_of(entries.last()),
        )
    }
}

/// No two entries share a key.
pub open spec fn unique_keys<E>(entries: Seq<E>, key_of: spec_fn(E) -> Seq<char>) -> bool {
    forall|i: int, j: int|
        0 <= i < j < entries.len() ==> key_of(#[trigger] entries[i]) != key_of(
            #[trigger] entries[j],
        )
}

/// A key is in the denoted mapping exactly when some entry carries it.
pub proof fn lemma_assoc_dom<E, V>(
    entries: Seq<E>,
    key_of: spec_fn(E) -> Seq<char>,
    val_of: spec_fn(E) -> V,
    k: Seq<char>,
)
    ensures
        assoc_map(entries, key_of, val_of).dom().contains(k) <==> exists|i: int|
            0 <= i < entries.len() && key_of(#[trigger] entries[i]) == k,
    decreases entries.len(),
{
    if entries.len() > 0 {
        let prefix = entries.drop_last();
        lemma_assoc_dom(prefix, key_of, val_of, k);
        if key_of(entries.last()) == k {
            assert(key_of(entries[entries.len() - 1]) == k);
        } else {
            if exists|i: int| 0 <= i < prefix.len() && key_of(#[trigger] prefix[i]) == k {
                let i = choose|i: int| 0 <= i < prefix.len() && key_of(#[trigger] prefix[i]) == k;
                assert(key_of(entries[i]) == k);
            }
            if exists|i: int| 0 <= i < entries.len() && key_of(#[trigger] entries[i]) == k {
                let i = choose|i: int| 0 <= i < entries.len() && key_of(#[trigger] entries[i]) == k;
                assert(i < prefix.len() && prefix[i] == entries[i]);
            }
        }
    }
}

/// With pairwise distinct keys, the denoted mapping sends each entry's key to
/// that entry's value.
pub proof fn lemma_assoc_index<E, V>(
    entries: Seq<E>,
    key_of: spec_fn(E) -> Seq<char>,
    val_of: spec_fn(E) -> V,
    i: int,
)
    requires
        unique_keys(entries, key_of),
        0 <= i < entries.len(),
    ensures
        assoc_map(entries, key_of, val_of).dom().contains(key_of(entries[i])),
        assoc_map(entries, key_of, val_of)[key_of(entries[i])] == val_of(entries[i]),
    decreases entries.len(),
{
    let prefix = entries.drop_last();
    if i < entries.len() - 1 {
        assert(unique_keys(prefix, key_of)) by {
            assert(forall|x: int, y: int|
                0 <= x < y < prefix.len() ==> prefix[x] == entries[x] && prefix[y] == entries[y]);
        }
        lemma_assoc_index(prefix, key_of, val_of, i);
        assert(prefix[i] == entries[i]);
        assert(key_of(entries[i]) != key_of(entries.last()));
    }
}

/// Appending an entry inserts its key into the denoted mapping.
pub proof fn lemma_assoc_push<E, V>(
    entries: Seq<E>,
    key_of: spec_fn(E) -> Seq<char>,
    val_of: spec_fn(E) -> V,
    e: E,
)
    ensures
        assoc_map(entries.push(e), key_of, val_of) == assoc_map(entries, key_of, val_of).insert(
            key_of(e),
            val_of(e),
        ),
{
    assert(entries.push(e).drop_last() =~= entries);
    assert(entries.push(e).last() == e);
}

/// Replacing the entry at `i` by one with the same key updates that key in
/// the denoted mapping.
pub proof fn lemma_assoc_update<E, V>(
    entries: Seq<E>,
    key_of: spec_fn(E) -> Seq<char>,
    val_of: spec_fn(E) -> V,
    i: int,
    e: E,
)
    requires
        unique_keys(entries, key_of),
        0 <= i < entries.len(),
        key_of(e) == key_of(entries[i]),
    ensures
        assoc_map(entries.update(i, e), key_of, val_of) == assoc_map(
            entries,
            key_of,
            val_of,
        ).insert(key_of(e), val_of(e)),
        unique_keys(entries.update(i, e), key_of),
    decreases entries.len(),
{
    let updated = entries.update(i, e);
    assert(unique_keys(updated, key_of)) by {
        assert(forall|x: int|
            0 <= x < entries.len() && x != i ==> updated[x] == entries[x] && key_of(
                #[trigger] updated[x],
            ) != key_of(entries[i]));
    }
    let prefix = entries.drop_last();
    assert(unique_keys(prefix, key_of)) by {
        assert(forall|x: int, y: int|
            0 <= x < y < prefix.len() ==> prefix[x] == entries[x] && prefix[y] == entries[y]);
    }
    if i == entries.len() - 1 {
        assert(updated.drop_last() =~= prefix);
        assert(assoc_map(updated, key_of, val_of) =~= assoc_map(entries, key_of, val_of).insert(
            key_of(e),
            val_of(e),
        ));
    } else {
        lemma_assoc_update(prefix, key_of, val_of, i, e);
        assert(updated.drop_last() =~= prefix.update(i, e));
        assert(updated.last() == entries.last());
        assert(key_of(e) != key_of(entries.last()));
        assert(assoc_map(updated, key_of, val_of) =~= assoc_map(entries, key_of, val_of).insert(
            key_of(e),
            val_of(e),
        ));
    }
}

} // verus!
