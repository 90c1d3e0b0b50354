use vstd::multiset::Multiset;
use vstd::prelude::*;

use crate::errors::{CollectionError, Collision};
use crate::impls::macros::{
    collect_unique, collected_unique, contents_bag, extend_one_unique, extended_unique,
    extended_unique_safe, keyed_set, lemma_contents_bag_empty, lemma_distinct_bag, lemma_drained,
    lemma_keyed_set, try_extend_unique, try_extend_unique_safe, UniqueCollection,
};
use crate::iter::{IntoItems, ItemIterator};
use crate::traits::{TryExtend, TryExtendOne, TryExtendSafe, TryFromIterator};

verus! {

/// A `hashbrown` hash set of `u64` values, with its default hasher.
#[verifier::external_body]
#[derive(Debug)]
pub struct HashbrownSet {
    inner: hashbrown::HashSet<u64>,
}

/// The values of a `hashbrown` set.
pub uninterp spec fn hashbrown_set_values(s: HashbrownSet) -> Set<u64>;

/// `hashbrown::HashSet::with_capacity`: an empty set.
#[verifier::external_body]
fn hb_set_with_capacity(n: usize) -> (r: HashbrownSet)
    ensures
        hashbrown_set_values(r) == Set::<u64>::empty(),
{
    HashbrownSet { inner: hashbrown::HashSet::with_capacity(n) }
}

/// `hashbrown::HashSet::contains`: whether `v` is held.
#[verifier::external_body]
fn hb_set_contains(s: &HashbrownSet, v: u64) -> (r: bool)
    ensures
        r == hashbrown_set_values(*s).contains(v),
{
    s.inner.contains(&v)
}

/// `hashbrown::HashSet::insert`: `v` is now held; `true` when it was not before.
#[verifier::external_body]
fn hb_set_insert(s: &mut HashbrownSet, v: u64) -> (r: bool)
    ensures
        hashbrown_set_values(*final(s)) == hashbrown_set_values(*old(s)).insert(v),
        r == !hashbrown_set_values(*old(s)).contains(v),
{
    s.inner.insert(v)
}

/// `hashbrown::HashSet::into_iter`: every value once, in an order that depends on the hasher's
/// seed.
#[verifier::external_body]
fn hb_set_into_values(s: HashbrownSet) -> (r: Vec<u64>)
    ensures
        r@.to_set() == hashbrown_set_values(s),
        r@.no_duplicates(),
{
    s.inner.into_iter().collect()
}

impl HashbrownSet {
    /// An empty set.
    pub fn new() -> (r: Self)
        ensures
            hashbrown_set_values(r) == Set::<u64>::empty(),
    {
        hb_set_with_capacity(0)
    }

    /// Whether `v` is held.
    pub fn contains(&self, v: u64) -> (r: bool)
        ensures
            r == hashbrown_set_values(*self).contains(v),
    {
        hb_set_contains(self, v)
    }
}

impl UniqueCollection for HashbrownSet {
    type Item = u64;

    open spec fn key_of(item: u64) -> u64 {
        item
    }

    open spec fn contents(&self) -> Map<u64, u64> {
        keyed_set(hashbrown_set_values(*self))
    }

    fn contains_key_of(&self, item: &u64) -> (r: bool) {
        hb_set_contains(self, *item)
    }

    fn insert_new(&mut self, item: u64) {
        let _ = hb_set_insert(self, item);
        proof {
            lemma_keyed_set(hashbrown_set_values(*old(self)), hashbrown_set_values(*old(self)), item);
        }
    }

    fn staging(&self, capacity: usize) -> (r: Self) {
        let r = hb_set_with_capacity(capacity);
        proof {
            assert(r.contents() =~= Map::<u64, u64>::empty());
        }
        r
    }

    fn drain(self) -> (r: Vec<u64>) {
        let r = hb_set_into_values(self);
        proof {
            assert forall|i: int| 0 <= i < r@.len() implies self.contents().contains_key(
                #[trigger] Self::key_of(r@[i]),
            ) && self.contents()[Self::key_of(r@[i])] == r@[i] by {
                assert(r@.to_set().contains(r@[i]));
            }
            assert forall|k: u64| #[trigger] self.contents().contains_key(k) implies exists|i: int|
                0 <= i < r@.len() && Self::key_of(r@[i]) == k by {
                assert(r@.to_set().contains(k));
            }
        }
        r
    }
}

impl IntoItems for HashbrownSet {
    type Item = u64;

    open spec fn item_bag(&self) -> Multiset<u64> {
        contents_bag(self.contents())
    }

    fn empty() -> (r: Self) {
        let r = hb_set_with_capacity(0);
        proof {
            assert(r.contents() =~= Map::<u64, u64>::empty());
            lemma_contents_bag_empty::<u64>();
        }
        r
    }

    fn into_items(self) -> (r: Vec<u64>) {
        let ghost c = self.contents();
        let r = self.drain();
        proof {
            lemma_drained::<Self>(r@, c);
            lemma_distinct_bag::<Self>(r@);
        }
        r
    }
}

/// Builds a set from values, failing on the first value that repeats an earlier one.
impl<I: ItemIterator<Item = u64>> TryFromIterator<I> for HashbrownSet {
    type Error = CollectionError<I, Self, Collision<u64>>;

    open spec fn from_iter_requires(iter: I) -> bool {
        true
    }

    open spec fn from_iter_ensures(
        iter: I,
        r: Result<Self, CollectionError<I, Self, Collision<u64>>>,
    ) -> bool {
        collected_unique::<Self, I>(iter, r)
    }

    /// Inserts the values one by one into a new set; on a repeated value, the error holds the
    /// set built so far, the repeated value and the rest of the iterator.
    fn try_from_iter(iter: I) -> (r: Result<Self, CollectionError<I, Self, Collision<u64>>>) {
        let hint = iter.size_hint();
        let set = hb_set_with_capacity(hint.0);
        proof {
            assert(set.contents() =~= Map::<u64, u64>::empty());
        }
        collect_unique(set, iter)
    }
}

/// Extends a set with values, stopping at the first value already present.
impl<I: ItemIterator<Item = u64>> TryExtend<I> for HashbrownSet {
    type Error = CollectionError<I, Self, Collision<u64>>;

    open spec fn extend_requires(pre: Self, iter: I) -> bool {
        true
    }

    open spec fn extend_ensures(
        pre: Self,
        iter: I,
        post: Self,
        r: Result<(), CollectionError<I, Self, Collision<u64>>>,
    ) -> bool {
        extended_unique::<Self, I>(pre, iter, post, r)
    }

    /// Adds the values in order; the values added before a collision stay in the set.
    fn try_extend(&mut self, iter: I) -> (r: Result<(), CollectionError<I, Self, Collision<u64>>>) {
        try_extend_unique(self, iter)
    }
}

/// Extends a set with values, leaving it unchanged when a value collides.
impl<I: ItemIterator<Item = u64>> TryExtendSafe<I> for HashbrownSet {
    type Error = CollectionError<I, Self, Collision<u64>>;

    open spec fn extend_safe_ensures(
        pre: Self,
        iter: I,
        post: Self,
        r: Result<(), CollectionError<I, Self, Collision<u64>>>,
    ) -> bool {
        extended_unique_safe::<Self, I>(pre, iter, post, r)
    }

    /// Stages the values in a new set and moves them in only when none collided.
    fn try_extend_safe(&mut self, iter: I) -> (r: Result<(), CollectionError<I, Self, Collision<u64>>>) {
        try_extend_unique_safe(self, iter)
    }
}

/// Adds one value, refusing a value already present.
impl TryExtendOne for HashbrownSet {
    type Item = u64;

    type Error = Collision<u64>;

    open spec fn extend_one_ensures(
        pre: Self,
        item: u64,
        post: Self,
        r: Result<(), Collision<u64>>,
    ) -> bool {
        &&& r is Ok <==> !hashbrown_set_values(pre).contains(item)
        &&& r is Ok ==> hashbrown_set_values(post) == hashbrown_set_values(pre).insert(item)
        &&& r matches Err(e) ==> e.item == item && post == pre
    }

    fn try_extend_one(&mut self, item: u64) -> (r: Result<(), Collision<u64>>) {
        let r = extend_one_unique(self, item);
        proof {
            if r is Ok {
                let pre = hashbrown_set_values(*old(self));
                let post = hashbrown_set_values(*self);
                lemma_keyed_set(pre, post, item);
                lemma_keyed_set(pre.insert(item), post, item);
            }
        }
        r
    }
}

} // verus!
