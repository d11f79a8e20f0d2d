//! A BCS-safe ordered set.
use std::collections::btree_map::Keys;
use std::collections::{BTreeMap, BTreeSet};
use vstd::laws_cmp::obeys_cmp;
use vstd::prelude::*;
use vstd::std_specs::btree::{increasing_seq, spec_btree_map_len, spec_btree_set_len};
use vstd::std_specs::iter::IteratorSpec;

verus! {

/// Calls `BTreeMap::pop_first`, which removes and returns the entry with the
/// least key, or `None` when the map is empty. The contract claims: one entry
/// fewer remains afterwards, and for a lawfully ordered key type the returned
/// entry was in the map and is the one removed.
#[verifier::external_body]
fn pop_first_entry<K: Ord, V>(m: &mut BTreeMap<K, V>) -> (r: Option<(K, V)>)
    ensures
        match r {
            Some(_) => spec_btree_map_len(old(m)) > 0 && spec_btree_map_len(final(m)) == spec_btree_map_len(old(m)) - 1,
            None => spec_btree_map_len(old(m)) == 0 && spec_btree_map_len(final(m)) == 0,
        },
        obeys_cmp::<K>() ==> match r {
            Some((k, v)) => old(m)@.contains_key(k) && old(m)@[k] == v && final(m)@ == old(m)@.remove(k),
            None => old(m)@ == Map::<K, V>::empty() && final(m)@ == old(m)@,
        },
{
    m.pop_first()
}

/// Calls `BTreeSet::pop_first`, which removes and returns the least element,
/// or `None` when the set is empty. The contract claims: one element fewer
/// remains afterwards, and for a lawfully ordered element type the returned
/// element was in the set and is the one removed.
#[verifier::external_body]
fn pop_first_element<T: Ord>(s: &mut BTreeSet<T>) -> (r: Option<T>)
    ensures
        match r {
            Some(_) => spec_btree_set_len(old(s)) > 0 && spec_btree_set_len(final(s)) == spec_btree_set_len(old(s)) - 1,
            None => spec_btree_set_len(old(s)) == 0 && spec_btree_set_len(final(s)) == 0,
        },
        obeys_cmp::<T>() ==> match r {
            Some(v) => old(s)@.contains(v) && final(s)@ == old(s)@.remove(v),
            None => old(s)@ == Set::<T>::empty() && final(s)@ == old(s)@,
        },
{
    s.pop_first()
}

/// An ordered set kept as the keys of a `BTreeMap` with unit values, so that
/// its serialized form is canonical.
#[derive(Debug, Clone)]
pub struct BcsSafeBTreeSet<T: Ord>(BTreeMap<T, ()>);

impl<T: Ord> View for BcsSafeBTreeSet<T> {
    type V = Set<T>;

    closed spec fn view(&self) -> Set<T> {
        self.0@.dom()
    }
}

impl<T: Ord> Default for BcsSafeBTreeSet<T> {
    fn default() -> (s: Self)
        ensures
            s@ == Set::<T>::empty(),
    {
        Self::new()
    }
}

impl<T: Ord> BcsSafeBTreeSet<T> {
    /// The elements of a set are finitely many.
    pub proof fn lemma_view_finite(s: &Self)
        ensures
            s@.finite(),
    {
    }

    pub fn new() -> (s: Self)
        ensures
            s@ == Set::<T>::empty(),
    {
        let s = Self(BTreeMap::new());
        assert(s@ =~= Set::<T>::empty());
        s
    }

    pub fn new_from_btreeset(data: BTreeSet<T>) -> (s: Self)
        ensures
            obeys_cmp::<T>() ==> s@ == data@,
    {
        let ghost original = data@;
        let mut data = data;
        let mut map: BTreeMap<T, ()> = BTreeMap::new();
        assert(map@.dom() =~= Set::<T>::empty());
        loop
            invariant
                obeys_cmp::<T>() ==> map@.dom() + data@ == original,
            ensures
                obeys_cmp::<T>() ==> map@.dom() == original,
            decreases spec_btree_set_len(&data),
        {
            match pop_first_element(&mut data) {
                Some(v) => {
                    let ghost before = data@;
                    map.insert(v, ());
                    proof {
                        if obeys_cmp::<T>() {
                            assert(map@.dom() + data@ =~= original);
                        }
                    }
                },
                None => {
                    proof {
                        if obeys_cmp::<T>() {
                            assert(map@.dom() =~= original);
                        }
                    }
                    break ;
                },
            }
        }
        Self(map)
    }

    pub fn len(&self) -> (n: usize)
        ensures
            self@.finite(),
            obeys_cmp::<T>() ==> n == self@.len(),
    {
        self.0.len()
    }

    pub fn is_empty(&self) -> (b: bool)
        ensures
            self@.finite(),
            b == (self@ == Set::<T>::empty()),
    {
        let b = self.0.is_empty();
        proof {
            if b {
                assert(self@ =~= Set::<T>::empty());
            } else {
                assert(self.0@.dom() != Set::<T>::empty()) by {
                    let k = choose|k: T| self.0@.contains_key(k);
                    assert(self.0@.dom().contains(k));
                }
            }
        }
        b
    }

    pub fn contains(&self, value: &T) -> (b: bool)
        ensures
            obeys_cmp::<T>() ==> b == self@.contains(*value),
    {
        self.0.contains_key(value)
    }

    /// Adds `value`; returns whether it was not already present.
    pub fn insert(&mut self, value: T) -> (b: bool)
        ensures
            old(self)@.finite(),
            final(self)@.finite(),
            obeys_cmp::<T>() ==> final(self)@ == old(self)@.insert(value),
            obeys_cmp::<T>() ==> b == !old(self)@.contains(value),
    {
        let r = self.0.insert(value, ());
        proof {
            if obeys_cmp::<T>() {
                assert(self@ =~= old(self)@.insert(value));
            }
        }
        r.is_none()
    }

    /// Removes `value`; returns whether it was present.
    pub fn remove(&mut self, value: &T) -> (b: bool)
        ensures
            old(self)@.finite(),
            final(self)@.finite(),
            obeys_cmp::<T>() ==> final(self)@ == old(self)@.remove(*value),
            obeys_cmp::<T>() ==> b == old(self)@.contains(*value),
    {
        let r = self.0.remove(value);
        proof {
            if obeys_cmp::<T>() {
                assert(self@ =~= old(self)@.remove(*value));
            }
        }
        r.is_some()
    }

    /// The elements, in increasing order.
    pub fn iter(&self) -> (it: Keys<'_, T, ()>)
        ensures
            obeys_cmp::<T>() ==> it.remaining().unref().to_set() == self@,
            obeys_cmp::<T>() ==> it.remaining().no_duplicates(),
            obeys_cmp::<T>() ==> increasing_seq(it.remaining()),
    {
        self.0.keys()
    }

    pub fn into_btreeset(self) -> (s: BTreeSet<T>)
        ensures
            obeys_cmp::<T>() ==> s@ == self@,
    {
        let ghost original = self@;
        let mut map = self.0;
        let mut set: BTreeSet<T> = BTreeSet::new();
        loop
            invariant
                obeys_cmp::<T>() ==> set@ + map@.dom() == original,
            ensures
                obeys_cmp::<T>() ==> set@ == original,
            decreases spec_btree_map_len(&map),
        {
            match pop_first_entry(&mut map) {
                Some((k, _)) => {
                    set.insert(k);
                    proof {
                        if obeys_cmp::<T>() {
                            assert(set@ + map@.dom() =~= original);
                        }
                    }
                },
                None => {
                    proof {
                        if obeys_cmp::<T>() {
                            assert(map@.dom() =~= Set::<T>::empty());
                            assert(set@ =~= original);
                        }
                    }
                    break ;
                },
            }
        }
        set
    }

    pub fn clear(&mut self)
        ensures
            final(self)@ == Set::<T>::empty(),
    {
        self.0.clear();
        assert(self@ =~= Set::<T>::empty());
    }
}

} // verus!

