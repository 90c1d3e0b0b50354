use std::collections::HashSet;
use vstd::multiset::Multiset;
use vstd::prelude::*;
use vstd::std_specs::iter::IteratorSpec;

use crate::errors::{CollectionError, Collision};
use crate::impls::macros::{
    collect_unique, collected_unique, contents_bag, extend_one_unique, extended_unique,
    extended_unique_safe, keyed_set, lemma_contents_bag_empty, lemma_distinct_bag, lemma_drained,
    lemma_keyed_set, try_extend_unique, try_extend_unique_safe, UniqueCollection,
};
use crate::iter::{IntoItems, ItemIterator};
use crate::traits::{TryExtend, TryExtendOne, TryExtendSafe, TryFromIterator};

verus! {

broadcast use vstd::std_specs::hash::group_hash_axioms;

/// The values of `s`, each once.
fn hash_set_values(s: &HashSet<u64>) -> (r: Vec<u64>)
    ensures
        r@.to_set() == s@,
        r@.no_duplicates(),
{
    let mut values: Vec<u64> = Vec::new();
    for x in it: s.iter()
        invariant
            values@ == it.history().map_values(|r: &u64| *r),
            it.seq() == IteratorSpec::remaining(&vstd::std_specs::hash::spec_hash_keys_iter(s)),
    {
        values.push(*x);
    }
    proof {
        let all = IteratorSpec::remaining(&vstd::std_specs::hash::spec_hash_keys_iter(s));
        assert(values@ =~= all.unref());
    }
    values
}

impl UniqueCollection for HashSet<u64> {
    type Item = u64;

    open spec fn key_of(item: u64) -> u64 {
        item
    }

    open spec fn contents(&self) -> Map<u64, u64> {
        keyed_set(self@)
    }

    fn contains_key_of(&self, item: &u64) -> (r: bool) {
        self.contains(item)
    }

    fn insert_new(&mut self, item: u64) {
        self.insert(item);
        proof {
            lemma_keyed_set(old(self)@, old(self)@, item);
        }
    }

    fn staging(&self, capacity: usize) -> (r: Self) {
        let r = HashSet::with_capacity(capacity);
        proof {
            assert(r.contents() =~= Map::<u64, u64>::empty());
        }
        r
    }

    fn drain(self) -> (r: Vec<u64>) {
        let r = hash_set_values(&self);
        proof {
            assert forall|i: int, j: int| 0 <= i < j < r@.len() implies #[trigger] Self::key_of(
                r@[i],
            ) != #[trigger] Self::key_of(r@[j]) by {}
            assert forall|i: int| 0 <= i < r@.len() implies self.contents().contains_key(
                #[trigger] Self::key_of(r@[i]),
            ) && self.contents()[Self::key_of(r@[i])] == r@[i] by {
                assert(r@.to_set().contains(r@[i]));
            }
            assert forall|k: u64| #[trigger] self.contents().contains_key(k) implies exists|i: int|
                0 <= i < r@.len() && Self::key_of(r@[i]) == k by {
                assert(r@.to_set().contains(k));
            }
        }
        r
    }
}

impl IntoItems for HashSet<u64> {
    type Item = u64;

    open spec fn item_bag(&self) -> Multiset<u64> {
        contents_bag(self.contents())
    }

    fn empty() -> (r: Self) {
        let r = HashSet::new();
        proof {
            assert(r.contents() =~= Map::<u64, u64>::empty());
            lemma_contents_bag_empty::<u64>();
        }
        r
    }

    fn into_items(self) -> (r: Vec<u64>) {
        let ghost c = self.contents();
        let r = self.drain();
        proof {
            lemma_drained::<Self>(r@, c);
            lemma_distinct_bag::<Self>(r@);
        }
        r
    }
}

/// Builds a set from values, failing on the first value that repeats an earlier one.
impl<I: ItemIterator<Item = u64>> TryFromIterator<I> for HashSet<u64> {
    type Error = CollectionError<I, Self, Collision<u64>>;

    open spec fn from_iter_requires(iter: I) -> bool {
        true
    }

    open spec fn from_iter_ensures(
        iter: I,
        r: Result<Self, CollectionError<I, Self, Collision<u64>>>,
    ) -> bool {
        collected_unique::<Self, I>(iter, r)
    }

    /// Inserts the values one by one into a new set; on a repeated value, the error holds the
    /// set built so far, the repeated value and the rest of the iterator.
    fn try_from_iter(iter: I) -> (r: Result<Self, CollectionError<I, Self, Collision<u64>>>) {
        let hint = iter.size_hint();
        let set: HashSet<u64> = HashSet::with_capacity(hint.0);
        proof {
            assert(set.contents() =~= Map::<u64, u64>::empty());
        }
        collect_unique(set, iter)
    }
}

/// Extends a set with values, stopping at the first value already present.
impl<I: ItemIterator<Item = u64>> TryExtend<I> for HashSet<u64> {
    type Error = CollectionError<I, Self, Collision<u64>>;

    open spec fn extend_requires(pre: Self, iter: I) -> bool {
        true
    }

    open spec fn extend_ensures(
        pre: Self,
        iter: I,
        post: Self,
        r: Result<(), CollectionError<I, Self, Collision<u64>>>,
    ) -> bool {
        extended_unique::<Self, I>(pre, iter, post, r)
    }

    /// Adds the values in order; the values added before a collision stay in the set.
    fn try_extend(&mut self, iter: I) -> (r: Result<(), CollectionError<I, Self, Collision<u64>>>) {
        try_extend_unique(self, iter)
    }
}

/// Extends a set with values, leaving it unchanged when a value collides.
impl<I: ItemIterator<Item = u64>> TryExtendSafe<I> for HashSet<u64> {
    type Error = CollectionError<I, Self, Collision<u64>>;

    open spec fn extend_safe_ensures(
        pre: Self,
        iter: I,
        post: Self,
        r: Result<(), CollectionError<I, Self, Collision<u64>>>,
    ) -> bool {
        extended_unique_safe::<Self, I>(pre, iter, post, r)
    }

    /// Stages the values in a new set and moves them in only when none collided.
    fn try_extend_safe(&mut self, iter: I) -> (r: Result<(), CollectionError<I, Self, Collision<u64>>>) {
        try_extend_unique_safe(self, iter)
    }
}

/// Adds one value, refusing a value already present.
impl TryExtendOne for HashSet<u64> {
    type Item = u64;

    type Error = Collision<u64>;

    open spec fn extend_one_ensures(
        pre: Self,
        item: u64,
        post: Self,
        r: Result<(), Collision<u64>>,
    ) -> bool {
        &&& r is Ok <==> !pre@.contains(item)
        &&& r is Ok ==> post@ == pre@.insert(item)
        &&& r matches Err(e) ==> e.item == item && post == pre
    }

    fn try_extend_one(&mut self, item: u64) -> (r: Result<(), Collision<u64>>) {
        let r = extend_one_unique(self, item);
        proof {
            if r is Ok {
                lemma_keyed_set(old(self)@, self@, item);
                lemma_keyed_set(old(self)@.insert(item), self@, item);
            }
        }
        r
    }
}

} // verus!
