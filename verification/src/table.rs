//! Association-table semantics shared by the blob store and the metadata
//! index: both are keyed by identifier bytes, and an insert appends an
//! entry whose key no earlier entry holds.

use vstd::prelude::*;

verus! {

/// The value stored under `k`, later entries taking precedence (with
/// distinct keys, the only entry for `k`).
pub open spec fn assoc_lookup<V>(s: Seq<(Seq<u8>, V)>, k: Seq<u8>) -> Option<V>
    decreases s.len(),
{
    if s.len() == 0 {
        None
    } else if s.last().0 == k {
        Some(s.last().1)
    } else {
        assoc_lookup(s.drop_last(), k)
    }
}

/// No two entries share a key.
pub open spec fn distinct_keys<V>(s: Seq<(Seq<u8>, V)>) -> bool {
    forall|i: int, j: int| 0 <= i < j < s.len() ==> (#[trigger] s[i]).0 != (#[trigger] s[j]).0
}

/// With distinct keys, the entry found at any position is the lookup result.
pub proof fn lemma_assoc_lookup_found<V>(s: Seq<(Seq<u8>, V)>, k: Seq<u8>, i: int)
    requires
        distinct_keys(s),
        0 <= i < s.len(),
        s[i].0 == k,
    ensures
        assoc_lookup(s, k) == Some(s[i].1),
    decreases s.len(),
{
    if i == s.len() - 1 {
    } else {
        assert(s.last().0 != k);
        assert(s.drop_last()[i] == s[i]);
        lemma_assoc_lookup_found(s.drop_last(), k, i);
    }
}

/// A key no entry holds is not found.
pub proof fn lemma_assoc_lookup_absent<V>(s: Seq<(Seq<u8>, V)>, k: Seq<u8>)
    requires
        forall|i: int| 0 <= i < s.len() ==> (#[trigger] s[i]).0 != k,
    ensures
        assoc_lookup(s, k) is None,
    decreases s.len(),
{
    if s.len() > 0 {
        assert(s.drop_last().len() == s.len() - 1);
        assert(forall|i: int|
            0 <= i < s.drop_last().len() ==> (#[trigger] s.drop_last()[i]).0 != k);
        lemma_assoc_lookup_absent(s.drop_last(), k);
    }
}

/// A found key names some entry.
pub proof fn lemma_assoc_lookup_exists<V>(s: Seq<(Seq<u8>, V)>, k: Seq<u8>)
    requires
        assoc_lookup(s, k) is Some,
    ensures
        exists|i: int|
            0 <= i < s.len() && (#[trigger] s[i]).0 == k && s[i].1 == assoc_lookup(s, k).unwrap(),
    decreases s.len(),
{
    if s.last().0 == k {
        assert(s[s.len() - 1].0 == k);
    } else {
        lemma_assoc_lookup_exists(s.drop_last(), k);
        let i = choose|i: int|
            0 <= i < s.drop_last().len() && (#[trigger] s.drop_last()[i]).0 == k
                && s.drop_last()[i].1 == assoc_lookup(s.drop_last(), k).unwrap();
        assert(s[i].0 == k && s[i].1 == assoc_lookup(s, k).unwrap());
    }
}

/// Appending an entry changes only its own key's lookup.
pub proof fn lemma_assoc_lookup_push<V>(s: Seq<(Seq<u8>, V)>, k: Seq<u8>, v: V, k2: Seq<u8>)
    ensures
        assoc_lookup(s.push((k, v)), k2) == (if k2 == k {
            Some(v)
        } else {
            assoc_lookup(s, k2)
        }),
{
    assert(s.push((k, v)).last() == (k, v));
    assert(s.push((k, v)).drop_last() =~= s);
}

} // verus!
