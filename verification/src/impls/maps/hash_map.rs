use std::collections::HashMap;
use vstd::multiset::Multiset;
use vstd::prelude::*;
use vstd::std_specs::iter::IteratorSpec;

use crate::errors::{CollectionError, Collision, KeyCollision};
use crate::impls::macros::{
    added_all, collides_at, contents_bag, extend_one_unique, extend_unique, extended_unique,
    extended_unique_safe, items_map, keyed_entries, keys_fresh, lemma_contents_bag_empty,
    lemma_distinct_bag, lemma_drained, lemma_keyed_entries, try_extend_unique,
    try_extend_unique_safe, UniqueCollection,
};
use crate::iter::{IntoItems, ItemIterator};
use crate::traits::{TryExtend, TryExtendOne, TryExtendSafe, TryFromIterator};

verus! {

broadcast use vstd::std_specs::hash::group_hash_axioms;

/// The keys of `m`, each once.
fn hash_map_keys<V>(m: &HashMap<u64, V>) -> (r: Vec<u64>)
    ensures
        r@.to_set() == m@.dom(),
        r@.no_duplicates(),
{
    let mut keys: Vec<u64> = Vec::new();
    for k in it: m.keys()
        invariant
            keys@ == it.history().map_values(|r: &u64| *r),
            it.seq() == IteratorSpec::remaining(&vstd::std_specs::hash::spec_keys_iter(m)),
    {
        keys.push(*k);
    }
    proof {
        let all = IteratorSpec::remaining(&vstd::std_specs::hash::spec_keys_iter(m));
        assert(keys@ =~= all.unref());
    }
    keys
}

impl<V> UniqueCollection for HashMap<u64, V> {
    type Item = (u64, V);

    open spec fn key_of(item: (u64, V)) -> u64 {
        item.0
    }

    open spec fn contents(&self) -> Map<u64, (u64, V)> {
        keyed_entries(self@)
    }

    fn contains_key_of(&self, item: &(u64, V)) -> (r: bool) {
        self.contains_key(&item.0)
    }

    fn insert_new(&mut self, item: (u64, V)) {
        let (k, v) = item;
        self.insert(k, v);
        proof {
            lemma_keyed_entries(old(self)@, old(self)@, k, v);
        }
    }

    fn staging(&self, capacity: usize) -> (r: Self) {
        let r = HashMap::with_capacity(capacity);
        proof {
            assert(r.contents() =~= Map::<u64, (u64, V)>::empty());
        }
        r
    }

    fn drain(self) -> (r: Vec<(u64, V)>) {
        let keys = hash_map_keys(&self);
        let ghost orig = self@;
        let mut m = self;
        let mut out: Vec<(u64, V)> = Vec::new();
        let mut i: usize = 0;
        while i < keys.len()
            invariant
                i <= keys@.len(),
                keys@.to_set() == orig.dom(),
                keys@.no_duplicates(),
                out@.len() == i,
                forall|a: int| 0 <= a < i ==> #[trigger] out@[a] == (keys@[a], orig[keys@[a]]),
                forall|k: u64|
                    #[trigger] m@.contains_key(k) <==> orig.contains_key(k) && !keys@.take(
                        i as int,
                    ).contains(k),
                forall|k: u64| #[trigger] m@.contains_key(k) ==> m@[k] == orig[k],
            decreases keys@.len() - i,
        {
            let k = keys[i];
            let ghost before = m@;
            proof {
                assert(keys@.to_set().contains(k));
                assert(!keys@.take(i as int).contains(k));
            }
            let v = m.remove(&k).unwrap();
            out.push((k, v));
            proof {
                assert forall|x: u64|
                    m@.contains_key(x) <==> orig.contains_key(x) && !keys@.take(i + 1).contains(
                        x,
                    ) by {
                    assert(keys@.take(i + 1) =~= keys@.take(i as int).push(k));
                    assert(m@ == before.remove(k));
                    vstd::seq_lib::lemma_seq_contains_after_push(keys@.take(i as int), k, x);
                    if x == k {
                        assert(keys@.take(i + 1)[i as int] == k);
                    }
                    assert(before.contains_key(x) <==> orig.contains_key(x) && !keys@.take(
                        i as int,
                    ).contains(x));
                }
            }
            i = i + 1;
        }
        proof {
            let c = orig;
            assert forall|a: int, b: int| 0 <= a < b < out@.len() implies #[trigger] out@[a].0
                != #[trigger] out@[b].0 by {}
            assert forall|k: u64| c.contains_key(k) implies exists|a: int|
                0 <= a < out@.len() && out@[a].0 == k by {
                assert(keys@.to_set().contains(k));
                let a = choose|a: int| 0 <= a < keys@.len() && keys@[a] == k;
                assert(out@[a].0 == k);
            }
            assert forall|a: int| 0 <= a < out@.len() implies c.contains_key(out@[a].0) by {
                assert(keys@.to_set().contains(keys@[a]));
            }
        }
        out
    }
}

impl<V> IntoItems for HashMap<u64, V> {
    type Item = (u64, V);

    open spec fn item_bag(&self) -> Multiset<(u64, V)> {
        contents_bag(self.contents())
    }

    fn empty() -> (r: Self) {
        let r = HashMap::new();
        proof {
            assert(r.contents() =~= Map::<u64, (u64, V)>::empty());
            lemma_contents_bag_empty::<(u64, V)>();
        }
        r
    }

    fn into_items(self) -> (r: Vec<(u64, V)>) {
        let ghost c = self.contents();
        let r = self.drain();
        proof {
            lemma_drained::<Self>(r@, c);
            lemma_distinct_bag::<Self>(r@);
        }
        r
    }
}

/// Builds a map from key-value pairs, failing on the first key that repeats an earlier one.
impl<V, I: ItemIterator<Item = (u64, V)>> TryFromIterator<I> for HashMap<u64, V> {
    type Error = KeyCollision<u64>;

    open spec fn from_iter_requires(iter: I) -> bool {
        true
    }

    open spec fn from_iter_ensures(iter: I, r: Result<Self, KeyCollision<u64>>) -> bool {
        let s = iter.remaining();
        let none = Map::<u64, (u64, V)>::empty();
        &&& r is Ok <==> keys_fresh::<Self>(none, s, s.len() as int)
        &&& r matches Ok(m) ==> added_all::<Self>(none, s, m.contents())
        &&& r matches Err(e) ==> exists|j: int|
            collides_at::<Self>(none, s, j) && e.key == s[j].0
    }

    /// Converts pairs into a map, failing with the key of the first pair whose key was already
    /// seen.
    fn try_from_iter(iter: I) -> (r: Result<Self, KeyCollision<u64>>) {
        let hint = iter.size_hint();
        let mut map: HashMap<u64, V> = HashMap::with_capacity(hint.0);
        proof {
            assert(map.contents() =~= Map::<u64, (u64, V)>::empty());
            assert(Map::<u64, (u64, V)>::empty().union_prefer_right(
                items_map::<Self>(iter.remaining()),
            ) =~= items_map::<Self>(iter.remaining()));
        }
        match extend_unique(&mut map, iter) {
            Ok(()) => Ok(map),
            Err((_, item)) => Err(KeyCollision::new(item.0)),
        }
    }
}

/// Extends a map with key-value pairs, stopping at the first key already present.
impl<V, I: ItemIterator<Item = (u64, V)>> TryExtend<I> for HashMap<u64, V> {
    type Error = CollectionError<I, Self, Collision<(u64, V)>>;

    open spec fn extend_requires(pre: Self, iter: I) -> bool {
        true
    }

    open spec fn extend_ensures(
        pre: Self,
        iter: I,
        post: Self,
        r: Result<(), CollectionError<I, Self, Collision<(u64, V)>>>,
    ) -> bool {
        extended_unique::<Self, I>(pre, iter, post, r)
    }

    /// Adds the pairs in order; the pairs added before a collision stay in the map.
    fn try_extend(&mut self, iter: I) -> (r: Result<(), CollectionError<I, Self, Collision<(u64, V)>>>) {
        try_extend_unique(self, iter)
    }
}

/// Extends a map with key-value pairs, leaving it unchanged when a key collides.
impl<V, I: ItemIterator<Item = (u64, V)>> TryExtendSafe<I> for HashMap<u64, V> {
    type Error = CollectionError<I, Self, Collision<(u64, V)>>;

    open spec fn extend_safe_ensures(
        pre: Self,
        iter: I,
        post: Self,
        r: Result<(), CollectionError<I, Self, Collision<(u64, V)>>>,
    ) -> bool {
        extended_unique_safe::<Self, I>(pre, iter, post, r)
    }

    /// Stages the pairs in a new map and moves them in only when no key collided.
    fn try_extend_safe(&mut self, iter: I) -> (r: Result<(), CollectionError<I, Self, Collision<(u64, V)>>>) {
        try_extend_unique_safe(self, iter)
    }
}

/// Adds one key-value pair, refusing a key already present.
impl<V> TryExtendOne for HashMap<u64, V> {
    type Item = (u64, V);

    type Error = Collision<(u64, V)>;

    open spec fn extend_one_ensures(
        pre: Self,
        item: (u64, V),
        post: Self,
        r: Result<(), Collision<(u64, V)>>,
    ) -> bool {
        &&& r is Ok <==> !pre@.contains_key(item.0)
        &&& r is Ok ==> post@ == pre@.insert(item.0, item.1)
        &&& r matches Err(e) ==> e.item == item && post == pre
    }

    fn try_extend_one(&mut self, item: (u64, V)) -> (r: Result<(), Collision<(u64, V)>>) {
        let r = extend_one_unique(self, item);
        proof {
            if r is Ok {
                lemma_keyed_entries(old(self)@, self@, item.0, item.1);
                lemma_keyed_entries(old(self)@.insert(item.0, item.1), self@, item.0, item.1);
            }
        }
        r
    }
}

} // verus!
