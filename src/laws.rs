//! Properties that relate lookups, writes and construction.
use vstd::prelude::*;

use crate::const_map::{first_index_of, lemma_first_index_of_is_first, ConstMap};
use crate::key_match::KeyMatch;

verus! {

/// Looking up the key stored at position `i` finds position `i`, unless an
/// earlier position holds an equal key: then it finds the first of those.
/// With the contract of `new`, the value found is the one that the value
/// generator produced for that position.
pub proof fn lemma_stored_key_is_found<K: Eq + View, V, const N: usize>(
    m: ConstMap<K, V, N>,
    i: int,
)
    requires
        m.wf(),
        0 <= i < N,
    ensures
        first_index_of(m.key_views(), m.key_views()[i]) matches Some(j) && j <= i
            && m.key_views()[j] == m.key_views()[i] && (j == i <==> forall|k: int|
            0 <= k < i ==> m.key_views()[k] != m.key_views()[i]),
{
    lemma_first_index_of_is_first(m.key_views(), m.key_views()[i]);
}

/// A query that equals none of the keys is not found.
pub proof fn lemma_absent_key_is_not_found<K: Eq + View, V, const N: usize>(
    m: ConstMap<K, V, N>,
    q: K::V,
)
    requires
        m.wf(),
        !m.key_views().contains(q),
    ensures
        first_index_of(m.key_views(), q) is None,
{
    lemma_first_index_of_is_first(m.key_views(), q);
    if first_index_of(m.key_views(), q) is Some {
        let i = first_index_of(m.key_views(), q)->0;
        assert(m.key_views()[i] == q);
    }
}

/// After a value is written through the reference that `get_mut` returned
/// for a query, looking up the same query finds the written value.
pub proof fn lemma_write_then_read<K: Eq + View, V, const N: usize>(
    before: ConstMap<K, V, N>,
    after: ConstMap<K, V, N>,
    q: K::V,
    i: int,
    v: V,
)
    requires
        before.wf(),
        first_index_of(before.key_views(), q) == Some(i),
        after.key_seq() == before.key_seq(),
        after.value_seq() == before.value_seq().update(i, v),
    ensures
        first_index_of(after.key_views(), q) == Some(i),
        after.value_seq()[i] == v,
{
    lemma_first_index_of_is_first(before.key_views(), q);
}

/// Two queries of different types with equal views find the same position.
pub proof fn lemma_query_types_agree<K, V, Q1, Q2, const N: usize>(
    m: ConstMap<K, V, N>,
    a: &Q1,
    b: &Q2,
)
    where
        K: Eq + KeyMatch<Q1> + KeyMatch<Q2>,
        Q1: View + ?Sized,
        Q2: View<V = Q1::V> + ?Sized,
    requires
        a@ == b@,
    ensures
        first_index_of(m.key_views(), a@) == first_index_of(m.key_views(), b@),
{
}

/// A map with no keys finds nothing.
pub proof fn lemma_empty_map_finds_nothing<K: Eq + View, V>(m: ConstMap<K, V, 0>, q: K::V)
    requires
        m.wf(),
    ensures
        first_index_of(m.key_views(), q) is None,
{
}

} // verus!
