use indexmap::IndexMap;
use vstd::multiset::Multiset;
use vstd::prelude::*;

use crate::errors::KeyCollision;
use crate::impls::macros::{
    added_all, collides_at, contents_bag, items_map, keys_fresh, lemma_contents_bag_empty,
    lemma_distinct_bag, lemma_drained, lemma_fresh_prefix_step, UniqueCollection,
};
use crate::iter::{IntoItems, ItemIterator};
use crate::traits::{TryExtend, TryExtendSafe, TryFromIterator};

verus! {

#[verifier::external_type_specification]
#[verifier::external_body]
#[verifier::reject_recursive_types(K)]
#[verifier::reject_recursive_types(V)]
#[verifier::reject_recursive_types(S)]
pub struct ExIndexMap<K, V, S>(IndexMap<K, V, S>);

/// The entries of an index map, in insertion order.
pub uninterp spec fn index_map_entries(m: IndexMap<u64, u64>) -> Seq<(u64, u64)>;

/// The entries of `s`, each under its key; a later entry replaces an earlier one with its key.
pub open spec fn entries_map(s: Seq<(u64, u64)>) -> Map<u64, (u64, u64)>
    decreases s.len(),
{
    if s.len() == 0 {
        Map::empty()
    } else {
        entries_map(s.drop_last()).insert(s.last().0, s.last())
    }
}

/// `IndexMap::with_capacity`: an empty map.
#[verifier::external_body]
fn index_map_with_capacity(n: usize) -> (r: IndexMap<u64, u64>)
    ensures
        index_map_entries(r) == Seq::<(u64, u64)>::empty(),
{
    IndexMap::with_capacity(n)
}

/// `IndexMap::contains_key`: whether some entry has key `k`.
#[verifier::external_body]
fn index_map_contains_key(m: &IndexMap<u64, u64>, k: u64) -> (r: bool)
    ensures
        r == entries_map(index_map_entries(*m)).contains_key(k),
{
    m.contains_key(&k)
}

/// `IndexMap::insert`: a new key is added last; an existing key keeps its place and takes the
/// new value, and its old value is returned.
#[verifier::external_body]
fn index_map_insert(m: &mut IndexMap<u64, u64>, k: u64, v: u64) -> (r: Option<u64>)
    ensures
        !entries_map(index_map_entries(*old(m))).contains_key(k) ==> {
            &&& index_map_entries(*final(m)) == index_map_entries(*old(m)).push((k, v))
            &&& r is None
        },
        entries_map(index_map_entries(*old(m))).contains_key(k) ==> exists|i: int|
            {
                &&& 0 <= i < index_map_entries(*old(m)).len()
                &&& index_map_entries(*old(m))[i].0 == k
                &&& index_map_entries(*final(m)) == index_map_entries(*old(m)).update(i, (k, v))
                &&& r == Some(index_map_entries(*old(m))[i].1)
            },
{
    m.insert(k, v)
}

/// `IndexMap::into_iter`: the entries in order; an index map holds one entry per key.
#[verifier::external_body]
fn index_map_into_entries(m: IndexMap<u64, u64>) -> (r: Vec<(u64, u64)>)
    ensures
        r@ == index_map_entries(m),
        forall|i: int, j: int| 0 <= i < j < r@.len() ==> #[trigger] r@[i].0 != #[trigger] r@[j].0,
{
    m.into_iter().collect()
}

/// A key is in the map of `s` exactly when some entry of `s` has it, and the map holds the last
/// such entry.
proof fn lemma_entries_map(s: Seq<(u64, u64)>)
    ensures
        forall|k: u64|
            #![trigger entries_map(s).contains_key(k)]
            entries_map(s).contains_key(k) <==> exists|i: int| 0 <= i < s.len() && s[i].0 == k,
        forall|i: int|
            0 <= i < s.len() && (forall|j: int| i < j < s.len() ==> s[j].0 != s[i].0)
                ==> #[trigger] entries_map(s)[s[i].0] == s[i],
    decreases s.len(),
{
    if s.len() > 0 {
        let p = s.drop_last();
        lemma_entries_map(p);
        assert forall|k: u64| entries_map(s).contains_key(k) implies exists|i: int|
            0 <= i < s.len() && s[i].0 == k by {
            if k != s.last().0 {
                assert(entries_map(p).contains_key(k));
                let i = choose|i: int| 0 <= i < p.len() && p[i].0 == k;
                assert(p[i] == s[i]);
            } else {
                assert(s[s.len() - 1].0 == k);
            }
        }
        assert forall|k: u64| (exists|i: int| 0 <= i < s.len() && s[i].0 == k) implies entries_map(
            s,
        ).contains_key(k) by {
            let i = choose|i: int| 0 <= i < s.len() && s[i].0 == k;
            if i < s.len() - 1 {
                assert(p[i] == s[i]);
                assert(entries_map(p).contains_key(k));
            }
        }
        assert forall|i: int|
            0 <= i < s.len() && (forall|j: int| i < j < s.len() ==> s[j].0 != s[i].0) implies #[trigger] entries_map(
            s,
        )[s[i].0] == s[i] by {
            if i < s.len() - 1 {
                assert(s[s.len() - 1].0 != s[i].0);
                assert(p[i] == s[i]);
                assert forall|j: int| i < j < p.len() implies p[j].0 != p[i].0 by {
                    assert(p[j] == s[j]);
                }
                assert(entries_map(p)[p[i].0] == p[i]);
            }
        }
    }
}

impl UniqueCollection for IndexMap<u64, u64> {
    type Item = (u64, u64);

    open spec fn key_of(item: (u64, u64)) -> u64 {
        item.0
    }

    open spec fn contents(&self) -> Map<u64, (u64, u64)> {
        entries_map(index_map_entries(*self))
    }

    fn contains_key_of(&self, item: &(u64, u64)) -> (r: bool) {
        index_map_contains_key(self, item.0)
    }

    fn insert_new(&mut self, item: (u64, u64)) {
        let _ = index_map_insert(self, item.0, item.1);
        proof {
            assert(index_map_entries(*self).drop_last() =~= index_map_entries(*old(self)));
        }
    }

    fn staging(&self, capacity: usize) -> (r: Self) {
        index_map_with_capacity(capacity)
    }

    /// The entries, in insertion order.
    fn drain(self) -> (r: Vec<(u64, u64)>)
        ensures
            r@ == index_map_entries(self),
    {
        let r = index_map_into_entries(self);
        proof {
            lemma_entries_map(r@);
            assert forall|k: u64| #[trigger] self.contents().contains_key(k) implies exists|i: int|
                0 <= i < r@.len() && Self::key_of(r@[i]) == k by {
                let i = choose|i: int| 0 <= i < r@.len() && r@[i].0 == k;
            }
        }
        r
    }
}

impl IntoItems for IndexMap<u64, u64> {
    type Item = (u64, u64);

    open spec fn item_bag(&self) -> Multiset<(u64, u64)> {
        contents_bag(self.contents())
    }

    open spec fn item_order(&self) -> Option<Seq<(u64, u64)>> {
        Some(index_map_entries(*self))
    }

    fn empty() -> (r: Self) {
        let r = index_map_with_capacity(0);
        proof {
            lemma_contents_bag_empty::<(u64, u64)>();
        }
        r
    }

    fn into_items(self) -> (r: Vec<(u64, u64)>) {
        let ghost c = self.contents();
        let r = self.drain();
        proof {
            lemma_drained::<Self>(r@, c);
            lemma_distinct_bag::<Self>(r@);
        }
        r
    }
}

/// The map of `a` followed by `b` is the map of `a` updated by the map of `b`.
proof fn lemma_entries_map_append(a: Seq<(u64, u64)>, b: Seq<(u64, u64)>)
    ensures
        entries_map(a + b) == entries_map(a).union_prefer_right(entries_map(b)),
    decreases b.len(),
{
    if b.len() == 0 {
        assert(a + b =~= a);
        assert(entries_map(a).union_prefer_right(entries_map(b)) =~= entries_map(a));
    } else {
        lemma_entries_map_append(a, b.drop_last());
        assert((a + b).drop_last() =~= a + b.drop_last());
        assert((a + b).last() == b.last());
        assert(entries_map(a + b) =~= entries_map(a).union_prefer_right(entries_map(b)));
    }
}

/// The map of a sequence of entries is the map the keyed collections build from it.
proof fn lemma_entries_map_is_items_map(s: Seq<(u64, u64)>)
    ensures
        entries_map(s) == items_map::<IndexMap<u64, u64>>(s),
    decreases s.len(),
{
    if s.len() > 0 {
        lemma_entries_map_is_items_map(s.drop_last());
    }
}

/// Appends to `map` the pairs of `iter` one by one, stopping at the first pair whose key `map`
/// already holds or `held` holds. `map` starts as `start`, empty when `held` is given; the keys
/// are checked against `base`, the entries of `held` when given and of `start` otherwise. On
/// success `map` holds `start` followed by every pair, otherwise `start` followed by the pairs
/// before the refused one, which is returned with the rest of the iterator.
#[verifier::loop_isolation(false)]
fn insert_fresh_pairs<I: ItemIterator<Item = (u64, u64)>>(
    map: &mut IndexMap<u64, u64>,
    held: Option<&IndexMap<u64, u64>>,
    iter: I,
) -> (r: Result<(), (I, (u64, u64))>)
    requires
        held is Some ==> index_map_entries(*old(map)) == Seq::<(u64, u64)>::empty(),
    ensures
        ({
            let s = iter.remaining();
            let start = index_map_entries(*old(map));
            let base = match held {
                Some(h) => h.contents(),
                None => old(map).contents(),
            };
            &&& r is Ok <==> keys_fresh::<IndexMap<u64, u64>>(base, s, s.len() as int)
            &&& r is Ok ==> index_map_entries(*final(map)) == start + s
            &&& r matches Err((rest, item)) ==> exists|j: int|
                {
                    &&& collides_at::<IndexMap<u64, u64>>(base, s, j)
                    &&& item == s[j]
                    &&& rest.remaining() == s.skip(j + 1)
                    &&& index_map_entries(*final(map)) == start + s.take(j)
                }
        }),
{
    let ghost s = iter.remaining();
    let ghost start = index_map_entries(*map);
    let ghost base = match held {
        Some(h) => h.contents(),
        None => map.contents(),
    };
    let mut iter = iter;
    let ghost mut i: int = 0;
    proof {
        assert(start + s.take(0) =~= start);
    }
    loop
        invariant
            0 <= i <= s.len(),
            iter.remaining() == s.skip(i),
            keys_fresh::<IndexMap<u64, u64>>(base, s, i),
            index_map_entries(*map) == start + s.take(i),
        decreases s.len() - i,
    {
        let ghost seen = base.union_prefer_right(items_map::<IndexMap<u64, u64>>(s.take(i)));
        proof {
            lemma_entries_map_append(start, s.take(i));
            lemma_entries_map_is_items_map(s.take(i));
            if held is Some {
                assert(entries_map(start) =~= Map::<u64, (u64, u64)>::empty());
                assert(map.contents() =~= items_map::<IndexMap<u64, u64>>(s.take(i)));
            } else {
                assert(map.contents() == seen);
            }
        }
        match iter.next() {
            None => {
                proof {
                    assert(s.take(i) =~= s);
                }
                return Ok(());
            },
            Some(item) => {
                proof {
                    assert(item == s[i]);
                    assert(iter.remaining() =~= s.skip(i + 1));
                    lemma_fresh_prefix_step::<IndexMap<u64, u64>>(base, s, i, seen);
                }
                let taken = match held {
                    Some(h) => index_map_contains_key(h, item.0),
                    None => false,
                };
                let again = index_map_contains_key(map, item.0);
                if taken || again {
                    proof {
                        assert(collides_at::<IndexMap<u64, u64>>(base, s, i));
                    }
                    return Err((iter, item));
                }
                let _ = index_map_insert(map, item.0, item.1);
                proof {
                    assert(index_map_entries(*map) =~= start + s.take(i + 1));
                    i = i + 1;
                }
            },
        }
    }
}

/// Appends `pairs` in order to `map`; their keys are distinct and new to `map`.
fn append_fresh_pairs(map: &mut IndexMap<u64, u64>, pairs: Vec<(u64, u64)>)
    requires
        keys_fresh::<IndexMap<u64, u64>>(old(map).contents(), pairs@, pairs@.len() as int),
    ensures
        index_map_entries(*final(map)) == index_map_entries(*old(map)) + pairs@,
{
    let ghost start = index_map_entries(*map);
    let ghost base = map.contents();
    let n = pairs.len();
    let mut k: usize = 0;
    proof {
        assert(start + pairs@.take(0) =~= start);
    }
    while k < n
        invariant
            n == pairs@.len(),
            k <= n,
            keys_fresh::<IndexMap<u64, u64>>(base, pairs@, n as int),
            base == entries_map(start),
            index_map_entries(*map) == start + pairs@.take(k as int),
        decreases n - k,
    {
        let pair = pairs[k];
        let ghost seen = base.union_prefer_right(
            items_map::<IndexMap<u64, u64>>(pairs@.take(k as int)),
        );
        proof {
            lemma_entries_map_append(start, pairs@.take(k as int));
            lemma_entries_map_is_items_map(pairs@.take(k as int));
            assert(keys_fresh::<IndexMap<u64, u64>>(base, pairs@, k as int));
            lemma_fresh_prefix_step::<IndexMap<u64, u64>>(base, pairs@, k as int, seen);
            assert(keys_fresh::<IndexMap<u64, u64>>(base, pairs@, k + 1));
        }
        let _ = index_map_insert(map, pair.0, pair.1);
        proof {
            assert(index_map_entries(*map) =~= start + pairs@.take(k + 1));
        }
        k = k + 1;
    }
    proof {
        assert(pairs@.take(n as int) =~= pairs@);
    }
}

/// Builds an index map from key-value pairs, in order, failing on the first key that repeats an
/// earlier one.
impl<I: ItemIterator<Item = (u64, u64)>> TryFromIterator<I> for IndexMap<u64, u64> {
    type Error = KeyCollision<u64>;

    open spec fn from_iter_requires(iter: I) -> bool {
        true
    }

    open spec fn from_iter_ensures(iter: I, r: Result<Self, KeyCollision<u64>>) -> bool {
        let s = iter.remaining();
        let none = Map::<u64, (u64, u64)>::empty();
        &&& r is Ok <==> keys_fresh::<Self>(none, s, s.len() as int)
        &&& r matches Ok(m) ==> added_all::<Self>(none, s, m.contents())
        &&& r matches Ok(m) ==> index_map_entries(m) == s
        &&& r matches Err(e) ==> exists|j: int|
            #![trigger collides_at::<Self>(none, s, j)]
            collides_at::<Self>(none, s, j) && e.key == s[j].0
    }

    /// Inserts the pairs in order into a new map, failing with the key of the first pair whose
    /// key was already seen.
    fn try_from_iter(iter: I) -> (r: Result<Self, KeyCollision<u64>>) {
        let ghost s = iter.remaining();
        let hint = iter.size_hint();
        let mut map = index_map_with_capacity(hint.0);
        proof {
            assert(map.contents() =~= Map::<u64, (u64, u64)>::empty());
        }
        match insert_fresh_pairs(&mut map, None, iter) {
            Ok(()) => {
                proof {
                    assert(Seq::<(u64, u64)>::empty() + s =~= s);
                    lemma_entries_map_is_items_map(s);
                    assert(Map::<u64, (u64, u64)>::empty().union_prefer_right(
                        items_map::<Self>(s),
                    ) =~= items_map::<Self>(s));
                }
                Ok(map)
            },
            Err((_, item)) => Err(KeyCollision::new(item.0)),
        }
    }
}

/// Extends an index map with key-value pairs, in order, stopping at the first key already
/// present.
impl<I: ItemIterator<Item = (u64, u64)>> TryExtend<I> for IndexMap<u64, u64> {
    type Error = KeyCollision<u64>;

    open spec fn extend_requires(pre: Self, iter: I) -> bool {
        true
    }

    open spec fn extend_ensures(
        pre: Self,
        iter: I,
        post: Self,
        r: Result<(), KeyCollision<u64>>,
    ) -> bool {
        let s = iter.remaining();
        let base = pre.contents();
        &&& r is Ok <==> keys_fresh::<Self>(base, s, s.len() as int)
        &&& r is Ok ==> added_all::<Self>(base, s, post.contents())
        &&& r is Ok ==> index_map_entries(post) == index_map_entries(pre) + s
        &&& r matches Err(e) ==> exists|j: int|
            #![trigger collides_at::<Self>(base, s, j)]
            {
                &&& collides_at::<Self>(base, s, j)
                &&& e.key == s[j].0
                &&& post.contents() == base.union_prefer_right(items_map::<Self>(s.take(j)))
                &&& index_map_entries(post) == index_map_entries(pre) + s.take(j)
            }
    }

    /// Appends the pairs in order; the pairs added before a collision stay in the map.
    fn try_extend(&mut self, iter: I) -> (r: Result<(), KeyCollision<u64>>) {
        let ghost s = iter.remaining();
        let ghost pre = *self;
        match insert_fresh_pairs(self, None, iter) {
            Ok(()) => {
                proof {
                    lemma_entries_map_append(index_map_entries(pre), s);
                    lemma_entries_map_is_items_map(s);
                }
                Ok(())
            },
            Err((rest, item)) => {
                proof {
                    let j = choose|j: int|
                        {
                            &&& collides_at::<Self>(pre.contents(), s, j)
                            &&& item == s[j]
                            &&& rest.remaining() == s.skip(j + 1)
                            &&& index_map_entries(*self) == index_map_entries(pre) + s.take(j)
                        };
                    lemma_entries_map_append(index_map_entries(pre), s.take(j));
                    lemma_entries_map_is_items_map(s.take(j));
                    assert(collides_at::<Self>(pre.contents(), s, j));
                }
                Err(KeyCollision::new(item.0))
            },
        }
    }
}

/// Extends an index map with key-value pairs, in order, leaving it unchanged when a key
/// collides.
impl<I: ItemIterator<Item = (u64, u64)>> TryExtendSafe<I> for IndexMap<u64, u64> {
    type Error = KeyCollision<u64>;

    open spec fn extend_safe_ensures(
        pre: Self,
        iter: I,
        post: Self,
        r: Result<(), KeyCollision<u64>>,
    ) -> bool {
        let s = iter.remaining();
        let base = pre.contents();
        &&& r is Ok <==> keys_fresh::<Self>(base, s, s.len() as int)
        &&& r is Ok ==> added_all::<Self>(base, s, post.contents())
        &&& r is Ok ==> index_map_entries(post) == index_map_entries(pre) + s
        &&& r matches Err(e) ==> exists|j: int|
            #![trigger collides_at::<Self>(base, s, j)]
            collides_at::<Self>(base, s, j) && e.key == s[j].0
    }

    /// Stages the pairs in a new map, checking each key against both maps, and appends them in
    /// order only when no key collided.
    fn try_extend_safe(&mut self, iter: I) -> (r: Result<(), KeyCollision<u64>>) {
        let ghost s = iter.remaining();
        let ghost pre = *self;
        let hint = iter.size_hint();
        let mut staged = index_map_with_capacity(hint.0);
        match insert_fresh_pairs(&mut staged, Some(&*self), iter) {
            Ok(()) => {
                let pairs = index_map_into_entries(staged);
                proof {
                    assert(Seq::<(u64, u64)>::empty() + s =~= s);
                    assert(pairs@ == s);
                }
                append_fresh_pairs(self, pairs);
                proof {
                    lemma_entries_map_append(index_map_entries(pre), s);
                    lemma_entries_map_is_items_map(s);
                }
                Ok(())
            },
            Err((_, item)) => Err(KeyCollision::new(item.0)),
        }
    }
}

} // verus!
