//! The fixed-key map.
use vstd::prelude::*;

use crate::key_match::KeyMatch;

verus! {

/// Position of the first element of `s` that equals `x`, if there is one.
pub open spec fn first_index_of<T>(s: Seq<T>, x: T) -> Option<int>
    decreases s.len(),
{
    if s.len() == 0 {
        None
    } else {
        match first_index_of(s.drop_last(), x) {
            Some(i) => Some(i),
            None => if s.last() == x {
                Some(s.len() - 1)
            } else {
                None
            },
        }
    }
}

/// A map that has a predetermined set of keys.
///
/// The value at position `i` belongs to the key at position `i`. Keys are
/// not required to be distinct: a lookup finds the first equal key.
pub struct ConstMap<K, V, const N: usize> where K: Eq {
    keys: [K; N],
    values: Vec<V>,
}

impl<K, V, const N: usize> ConstMap<K, V, N> where K: Eq {
    /// The keys, in the order they were given.
    pub closed spec fn key_seq(&self) -> Seq<K> {
        self.keys@
    }

    /// The values, position by position with the keys.
    pub closed spec fn value_seq(&self) -> Seq<V> {
        self.values@
    }

    /// There is exactly one value per key.
    #[verifier::type_invariant]
    pub open spec fn wf(&self) -> bool {
        &&& self.key_seq().len() == N
        &&& self.value_seq().len() == N
    }

    /// Creates a new `ConstMap` with a provided set of keys and default values.
    ///
    /// `value_generator` is called once per key, in key order, and its
    /// `i`-th result becomes the value of the `i`-th key.
    pub fn new(keys: [K; N], value_generator: impl Fn() -> V) -> (r: Self)
        requires
            call_requires(value_generator, ()),
        ensures
            r.wf(),
            r.key_seq() == keys@,
            forall|i: int| 0 <= i < N ==> call_ensures(value_generator, (), #[trigger] r.value_seq()[i]),
    {
        let mut values: Vec<V> = Vec::with_capacity(N);
        let mut i: usize = 0;
        while i < N
            invariant
                i <= N,
                values@.len() == i,
                call_requires(value_generator, ()),
                forall|j: int| 0 <= j < i ==> call_ensures(value_generator, (), #[trigger] values@[j]),
            decreases N - i,
        {
            values.push(value_generator());
            i = i + 1;
        }
        proof {
            vstd::array::array_len_matches_n(&keys);
        }
        ConstMap { keys, values }
    }

    /// The key/value pairs in storage order, duplicates included: what a
    /// diagnostic rendering of the map lists.
    pub fn entries(&self) -> (r: Vec<(&K, &V)>)
        ensures
            r@.len() == N,
            forall|i: int| 0 <= i < N ==> #[trigger] r@[i] == (&self.key_seq()[i], &self.value_seq()[i]),
    {
        proof {
            use_type_invariant(self);
        }
        let mut r: Vec<(&K, &V)> = Vec::with_capacity(N);
        let mut i: usize = 0;
        while i < N
            invariant
                self.wf(),
                i <= N,
                r@.len() == i,
                forall|j: int| 0 <= j < i ==> #[trigger] r@[j] == (&self.key_seq()[j], &self.value_seq()[j]),
            decreases N - i,
        {
            r.push((&self.keys[i], &self.values[i]));
            i = i + 1;
        }
        r
    }
}

impl<K, V, const N: usize> ConstMap<K, V, N> where K: Eq + View {
    /// The views of the keys, in order: what lookups compare against.
    pub open spec fn key_views(&self) -> Seq<K::V> {
        self.key_seq().map_values(|k: K| k@)
    }

    /// Finds the position of the first key that matches `key`.
    pub fn get_index<Q>(&self, key: &Q) -> (r: Option<usize>)
        where K: KeyMatch<Q>, Q: View + ?Sized,
        ensures
            r matches Some(i) ==> i < N && first_index_of(self.key_views(), key@) == Some(i as int),
            r is None ==> first_index_of(self.key_views(), key@) is None,
    {
        proof {
            use_type_invariant(self);
        }
        let mut i: usize = 0;
        while i < N
            invariant
                self.wf(),
                i <= N,
                first_index_of(self.key_views().take(i as int), key@) is None,
            decreases N - i,
        {
            proof {
                lemma_first_index_of_take(self.key_views(), key@, i as int);
            }
            if self.keys[i].key_matches(key) {
                proof {
                    lemma_first_index_of_prefix(self.key_views(), key@, i + 1);
                }
                return Some(i);
            }
            i = i + 1;
        }
        assert(self.key_views().take(N as int) =~= self.key_views());
        None
    }

    /// Tries to get a reference to the value for a provided key.
    pub fn get<Q>(&self, key: &Q) -> (r: Option<&V>)
        where K: KeyMatch<Q>, Q: View + ?Sized,
        ensures
            (match first_index_of(self.key_views(), key@) {
                Some(i) => r == Some(&self.value_seq()[i]),
                None => r is None,
            }),
    {
        proof {
            use_type_invariant(self);
        }
        let i = self.get_index(key)?;
        Some(&self.values[i])
    }

    /// Tries to get a mutable reference to the value for a provided key.
    ///
    /// Whatever is written through the reference becomes the value at the
    /// position of the first matching key; nothing else changes.
    pub fn get_mut<Q>(&mut self, key: &Q) -> (r: Option<&mut V>)
        where K: KeyMatch<Q>, Q: View + ?Sized,
        ensures
            final(self).key_seq() == old(self).key_seq(),
            (match first_index_of(old(self).key_views(), key@) {
                Some(i) => r matches Some(v) && *v == old(self).value_seq()[i]
                    && final(self).value_seq() == old(self).value_seq().update(i, *final(v)),
                None => r is None && final(self).value_seq() == old(self).value_seq(),
            }),
    {
        proof {
            use_type_invariant(&*self);
        }
        let i = self.get_index(key)?;
        Some(&mut self.values[i])
    }
}

/// What `first_index_of` finds: the smallest position holding `x`, or
/// nothing exactly when no position holds it.
pub proof fn lemma_first_index_of_is_first<T>(s: Seq<T>, x: T)
    ensures
        (match first_index_of(s, x) {
            Some(i) => 0 <= i < s.len() && s[i] == x && forall|j: int| 0 <= j < i ==> s[j] != x,
            None => forall|j: int| 0 <= j < s.len() ==> s[j] != x,
        }),
    decreases s.len(),
{
    if s.len() > 0 {
        let t = s.drop_last();
        lemma_first_index_of_is_first(t, x);
        assert(forall|j: int| 0 <= j < t.len() ==> t[j] == s[j]);
    }
}

/// Extending a prefix with no match by one element finds that element, or still nothing.
proof fn lemma_first_index_of_take<T>(s: Seq<T>, x: T, i: int)
    requires
        0 <= i < s.len(),
        first_index_of(s.take(i), x) is None,
    ensures
        first_index_of(s.take(i + 1), x) == (if s[i] == x { Some(i) } else { None::<int> }),
{
    assert(s.take(i + 1).drop_last() =~= s.take(i));
}

/// A match found in a prefix is the first match of the whole sequence.
proof fn lemma_first_index_of_prefix<T>(s: Seq<T>, x: T, k: int)
    requires
        0 <= k <= s.len(),
        first_index_of(s.take(k), x) is Some,
    ensures
        first_index_of(s, x) == first_index_of(s.take(k), x),
    decreases s.len(),
{
    if k == s.len() {
        assert(s.take(k) =~= s);
    } else {
        assert(s.drop_last().take(k) =~= s.take(k));
        lemma_first_index_of_prefix(s.drop_last(), x, k);
    }
}

} // verus!
