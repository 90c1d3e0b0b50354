use vstd::multiset::Multiset;
use vstd::prelude::*;

use crate::errors::{CollectionError, Collision};
use crate::impls::macros::{
    collect_unique, collected_unique, contents_bag, extend_one_unique, extended_unique,
    extended_unique_safe, keyed_entries, lemma_contents_bag_empty, lemma_distinct_bag,
    lemma_drained, lemma_keyed_entries, try_extend_unique, try_extend_unique_safe,
    UniqueCollection,
};
use crate::iter::{IntoItems, ItemIterator};
use crate::traits::{TryExtend, TryExtendOne, TryExtendSafe, TryFromIterator};

verus! {

/// A `hashbrown` hash map from `u64` keys to `u64` values, with its default hasher.
#[verifier::external_body]
#[derive(Debug)]
pub struct HashbrownMap {
    inner: hashbrown::HashMap<u64, u64>,
}

/// The entries of a `hashbrown` map.
pub uninterp spec fn hashbrown_map_entries(m: HashbrownMap) -> Map<u64, u64>;

/// `hashbrown::HashMap::with_capacity`: an empty map.
#[verifier::external_body]
fn hb_map_with_capacity(n: usize) -> (r: HashbrownMap)
    ensures
        hashbrown_map_entries(r).dom() == Set::<u64>::empty(),
{
    HashbrownMap { inner: hashbrown::HashMap::with_capacity(n) }
}

/// `hashbrown::HashMap::contains_key`: whether `k` has an entry.
#[verifier::external_body]
fn hb_map_contains_key(m: &HashbrownMap, k: u64) -> (r: bool)
    ensures
        r == hashbrown_map_entries(*m).contains_key(k),
{
    m.inner.contains_key(&k)
}

/// `hashbrown::HashMap::get`: the value under `k`, if any.
#[verifier::external_body]
fn hb_map_get(m: &HashbrownMap, k: u64) -> (r: Option<u64>)
    ensures
        r == (if hashbrown_map_entries(*m).contains_key(k) {
            Some(hashbrown_map_entries(*m)[k])
        } else {
            None
        }),
{
    m.inner.get(&k).copied()
}

/// `hashbrown::HashMap::insert`: `k` now maps to `v`; the value it replaced is returned.
#[verifier::external_body]
fn hb_map_insert(m: &mut HashbrownMap, k: u64, v: u64) -> (r: Option<u64>)
    ensures
        hashbrown_map_entries(*final(m)) == hashbrown_map_entries(*old(m)).insert(k, v),
        r == (if hashbrown_map_entries(*old(m)).contains_key(k) {
            Some(hashbrown_map_entries(*old(m))[k])
        } else {
            None
        }),
{
    m.inner.insert(k, v)
}

/// `hashbrown::HashMap::len`: the number of entries.
#[verifier::external_body]
fn hb_map_len(m: &HashbrownMap) -> (r: usize)
    ensures
        r == hashbrown_map_entries(*m).len(),
{
    m.inner.len()
}

/// `hashbrown::HashMap::into_iter`: every entry once, in an order that depends on the hasher's
/// seed.
#[verifier::external_body]
fn hb_map_into_entries(m: HashbrownMap) -> (r: Vec<(u64, u64)>)
    ensures
        forall|i: int, j: int| 0 <= i < j < r@.len() ==> #[trigger] r@[i].0 != #[trigger] r@[j].0,
        forall|i: int|
            0 <= i < r@.len() ==> hashbrown_map_entries(m).contains_key(#[trigger] r@[i].0)
                && hashbrown_map_entries(m)[r@[i].0] == r@[i].1,
        forall|k: u64| #[trigger]
            hashbrown_map_entries(m).contains_key(k) ==> exists|i: int|
                0 <= i < r@.len() && r@[i].0 == k,
{
    m.inner.into_iter().collect()
}

impl HashbrownMap {
    /// An empty map.
    pub fn new() -> (r: Self)
        ensures
            hashbrown_map_entries(r) == Map::<u64, u64>::empty(),
    {
        hb_map_with_capacity(0)
    }

    /// The value under `k`, if any.
    pub fn get(&self, k: u64) -> (r: Option<u64>)
        ensures
            r == (if hashbrown_map_entries(*self).contains_key(k) {
                Some(hashbrown_map_entries(*self)[k])
            } else {
                None
            }),
    {
        hb_map_get(self, k)
    }

    /// The number of entries.
    pub fn len(&self) -> (r: usize)
        ensures
            r == hashbrown_map_entries(*self).len(),
    {
        hb_map_len(self)
    }
}

impl UniqueCollection for HashbrownMap {
    type Item = (u64, u64);

    open spec fn key_of(item: (u64, u64)) -> u64 {
        item.0
    }

    open spec fn contents(&self) -> Map<u64, (u64, u64)> {
        keyed_entries(hashbrown_map_entries(*self))
    }

    fn contains_key_of(&self, item: &(u64, u64)) -> (r: bool) {
        hb_map_contains_key(self, item.0)
    }

    fn insert_new(&mut self, item: (u64, u64)) {
        let _ = hb_map_insert(self, item.0, item.1);
        proof {
            lemma_keyed_entries(
                hashbrown_map_entries(*old(self)),
                hashbrown_map_entries(*old(self)),
                item.0,
                item.1,
            );
        }
    }

    fn staging(&self, capacity: usize) -> (r: Self) {
        let r = hb_map_with_capacity(capacity);
        proof {
            assert(r.contents() =~= Map::<u64, (u64, u64)>::empty());
        }
        r
    }

    fn drain(self) -> (r: Vec<(u64, u64)>) {
        let r = hb_map_into_entries(self);
        proof {
            assert forall|k: u64| #[trigger] self.contents().contains_key(k) implies exists|i: int|
                0 <= i < r@.len() && Self::key_of(r@[i]) == k by {
                let i = choose|i: int| 0 <= i < r@.len() && r@[i].0 == k;
            }
        }
        r
    }
}

impl IntoItems for HashbrownMap {
    type Item = (u64, u64);

    open spec fn item_bag(&self) -> Multiset<(u64, u64)> {
        contents_bag(self.contents())
    }

    fn empty() -> (r: Self) {
        let r = hb_map_with_capacity(0);
        proof {
            assert(r.contents() =~= Map::<u64, (u64, u64)>::empty());
            lemma_contents_bag_empty::<(u64, u64)>();
        }
        r
    }

    fn into_items(self) -> (r: Vec<(u64, u64)>) {
        let ghost c = self.contents();
        let r = self.drain();
        proof {
            lemma_drained::<Self>(r@, c);
            lemma_distinct_bag::<Self>(r@);
        }
        r
    }
}

/// Builds a map from key-value pairs, failing on the first key that repeats an earlier one.
impl<I: ItemIterator<Item = (u64, u64)>> TryFromIterator<I> for HashbrownMap {
    type Error = CollectionError<I, Self, Collision<(u64, u64)>>;

    open spec fn from_iter_requires(iter: I) -> bool {
        true
    }

    open spec fn from_iter_ensures(
        iter: I,
        r: Result<Self, CollectionError<I, Self, Collision<(u64, u64)>>>,
    ) -> bool {
        collected_unique::<Self, I>(iter, r)
    }

    /// Inserts the pairs one by one into a new map; on a repeated key, the error holds the map
    /// built so far, the refused pair and the rest of the iterator.
    fn try_from_iter(iter: I) -> (r: Result<Self, CollectionError<I, Self, Collision<(u64, u64)>>>) {
        let hint = iter.size_hint();
        let map = hb_map_with_capacity(hint.0);
        proof {
            assert(map.contents() =~= Map::<u64, (u64, u64)>::empty());
        }
        collect_unique(map, iter)
    }
}

/// Extends a map with key-value pairs, stopping at the first key already present.
impl<I: ItemIterator<Item = (u64, u64)>> TryExtend<I> for HashbrownMap {
    type Error = CollectionError<I, Self, Collision<(u64, u64)>>;

    open spec fn extend_requires(pre: Self, iter: I) -> bool {
        true
    }

    open spec fn extend_ensures(
        pre: Self,
        iter: I,
        post: Self,
        r: Result<(), CollectionError<I, Self, Collision<(u64, u64)>>>,
    ) -> bool {
        extended_unique::<Self, I>(pre, iter, post, r)
    }

    /// Adds the pairs in order; the pairs added before a collision stay in the map.
    fn try_extend(&mut self, iter: I) -> (r: Result<
        (),
        CollectionError<I, Self, Collision<(u64, u64)>>,
    >) {
        try_extend_unique(self, iter)
    }
}

/// Extends a map with key-value pairs, leaving it unchanged when a key collides.
impl<I: ItemIterator<Item = (u64, u64)>> TryExtendSafe<I> for HashbrownMap {
    type Error = CollectionError<I, Self, Collision<(u64, u64)>>;

    open spec fn extend_safe_ensures(
        pre: Self,
        iter: I,
        post: Self,
        r: Result<(), CollectionError<I, Self, Collision<(u64, u64)>>>,
    ) -> bool {
        extended_unique_safe::<Self, I>(pre, iter, post, r)
    }

    /// Stages the pairs in a new map, checking each key against both maps, and moves them in
    /// only when no key collided.
    fn try_extend_safe(&mut self, iter: I) -> (r: Result<
        (),
        CollectionError<I, Self, Collision<(u64, u64)>>,
    >) {
        try_extend_unique_safe(self, iter)
    }
}

/// Adds one key-value pair, refusing a key already present.
impl TryExtendOne for HashbrownMap {
    type Item = (u64, u64);

    type Error = Collision<(u64, u64)>;

    open spec fn extend_one_ensures(
        pre: Self,
        item: (u64, u64),
        post: Self,
        r: Result<(), Collision<(u64, u64)>>,
    ) -> bool {
        &&& r is Ok <==> !hashbrown_map_entries(pre).contains_key(item.0)
        &&& r is Ok ==> hashbrown_map_entries(post) == hashbrown_map_entries(pre).insert(
            item.0,
            item.1,
        )
        &&& r matches Err(e) ==> e.item == item && post == pre
    }

    fn try_extend_one(&mut self, item: (u64, u64)) -> (r: Result<(), Collision<(u64, u64)>>) {
        let r = extend_one_unique(self, item);
        proof {
            if r is Ok {
                let pre = hashbrown_map_entries(*old(self));
                let post = hashbrown_map_entries(*self);
                lemma_keyed_entries(pre, pre, item.0, item.1);
                lemma_keyed_entries(pre.insert(item.0, item.1), post, item.0, item.1);
            }
        }
        r
    }
}

} // verus!
