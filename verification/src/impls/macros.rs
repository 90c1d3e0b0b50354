//! The algorithms shared by the collections of this crate: building a collection item by
//! item, extending one with a basic or a strong error guarantee, and adding one item to a
//! collection that refuses colliding items.

use vstd::multiset::Multiset;
use vstd::prelude::*;

use crate::errors::{CollectionError, Collision};
use crate::iter::ItemIterator;
use crate::traits::TryExtendOne;

verus! {

/// A collection that holds at most one item per key, and refuses an item whose key it already
/// holds. Maps key their entries by the entry's key; sets key their values by the value itself.
pub trait UniqueCollection: Sized {
    /// The items the collection holds.
    type Item;

    /// The key of an item.
    spec fn key_of(item: Self::Item) -> u64;

    /// The items held, each under its key.
    spec fn contents(&self) -> Map<u64, Self::Item>;

    /// Whether an item with the key of `item` is held.
    fn contains_key_of(&self, item: &Self::Item) -> (r: bool)
        ensures
            r == self.contents().contains_key(Self::key_of(*item)),
    ;

    /// Adds `item`, whose key is not yet held.
    fn insert_new(&mut self, item: Self::Item)
        requires
            !old(self).contents().contains_key(Self::key_of(item)),
        ensures
            final(self).contents() == old(self).contents().insert(Self::key_of(item), item),
    ;

    /// An empty collection of the same kind, ready to take about `capacity` items.
    fn staging(&self, capacity: usize) -> (r: Self)
        ensures
            r.contents() == Map::<u64, Self::Item>::empty(),
    ;

    /// Moves the items out, one per key, in the collection's own order.
    fn drain(self) -> (r: Vec<Self::Item>)
        ensures
            forall|i: int, j: int|
                0 <= i < j < r@.len() ==> #[trigger] Self::key_of(r@[i]) != #[trigger] Self::key_of(
                    r@[j],
                ),
            forall|i: int|
                0 <= i < r@.len() ==> self.contents().contains_key(#[trigger] Self::key_of(r@[i]))
                    && self.contents()[Self::key_of(r@[i])] == r@[i],
            forall|k: u64|
                #[trigger] self.contents().contains_key(k) ==> exists|i: int|
                    0 <= i < r@.len() && Self::key_of(r@[i]) == k,
    ;
}

/// The facts `drain` states make its result a sequence with distinct keys whose map is `m`.
pub proof fn lemma_drained<C: UniqueCollection>(r: Seq<C::Item>, m: Map<u64, C::Item>)
    requires
        forall|i: int, j: int|
            0 <= i < j < r.len() ==> #[trigger] C::key_of(r[i]) != #[trigger] C::key_of(r[j]),
        forall|i: int|
            0 <= i < r.len() ==> m.contains_key(#[trigger] C::key_of(r[i])) && m[C::key_of(r[i])]
                == r[i],
        forall|k: u64| #[trigger] m.contains_key(k) ==> exists|i: int| 0 <= i < r.len() && C::key_of(r[i]) == k,
    ensures
        keys_fresh::<C>(Map::empty(), r, r.len() as int),
        items_map::<C>(r) == m,
{
    lemma_items_map::<C>(r);
    let im = items_map::<C>(r);
    assert forall|k: u64| im.contains_key(k) <==> m.contains_key(k) by {
        if m.contains_key(k) {
            let i = choose|i: int| 0 <= i < r.len() && C::key_of(r[i]) == k;
        }
        if im.contains_key(k) {
            let i = choose|i: int| 0 <= i < r.len() && C::key_of(r[i]) == k;
        }
    }
    assert forall|k: u64| im.contains_key(k) implies im[k] == m[k] by {
        let i = choose|i: int| 0 <= i < r.len() && C::key_of(r[i]) == k;
        assert forall|j: int| i < j < r.len() implies C::key_of(r[j]) != C::key_of(r[i]) by {}
    }
    assert(im =~= m);
}

/// The items of a keyed collection, as a multiset.
pub open spec fn contents_bag<T>(m: Map<u64, T>) -> Multiset<T> {
    Multiset::from_set(m.values())
}

/// An empty collection holds no items.
pub proof fn lemma_contents_bag_empty<T>()
    ensures
        contents_bag(Map::<u64, T>::empty()) =~= Multiset::<T>::empty(),
{
    broadcast use vstd::multiset::group_multiset_axioms;

    let m = Map::<u64, T>::empty();
    assert(m.values() =~= Set::<T>::empty());
    let fm = Map::new(|k: T| m.values().contains(k), |v: T| 1nat);
    assert(fm.dom() =~= Set::<T>::empty());
    assert forall|x: T| contents_bag(m).count(x) == Multiset::<T>::empty().count(x) by {
        assert(!fm.dom().contains(x));
    }
}

/// The entries of a map from keys to values, each kept under its key with the key.
pub open spec fn keyed_entries<V>(m: Map<u64, V>) -> Map<u64, (u64, V)> {
    Map::new(|k: u64| m.contains_key(k), |k: u64| (k, m[k]))
}

/// Keeping entries with their keys commutes with inserting, and loses nothing.
pub proof fn lemma_keyed_entries<V>(m: Map<u64, V>, n: Map<u64, V>, k: u64, v: V)
    ensures
        keyed_entries(m).insert(k, (k, v)) == keyed_entries(m.insert(k, v)),
        keyed_entries(m) == keyed_entries(n) ==> m == n,
{
    assert(keyed_entries(m).insert(k, (k, v)) =~= keyed_entries(m.insert(k, v)));
    if keyed_entries(m) == keyed_entries(n) {
        assert forall|x: u64| #[trigger] m.contains_key(x) implies n.contains_key(x) && m[x] == n[x] by {
            assert(keyed_entries(m).contains_key(x));
            assert(keyed_entries(m)[x] == keyed_entries(n)[x]);
        }
        assert forall|x: u64| #[trigger] n.contains_key(x) implies m.contains_key(x) by {
            assert(keyed_entries(n).contains_key(x));
        }
        assert(m =~= n);
    }
}

/// The values of a set, each kept under itself.
pub open spec fn keyed_set(s: Set<u64>) -> Map<u64, u64> {
    Map::new(|k: u64| s.contains(k), |k: u64| k)
}

/// Keeping values under themselves commutes with inserting, and loses nothing.
pub proof fn lemma_keyed_set(s: Set<u64>, t: Set<u64>, k: u64)
    ensures
        keyed_set(s).insert(k, k) == keyed_set(s.insert(k)),
        keyed_set(s) == keyed_set(t) ==> s == t,
{
    assert(keyed_set(s).insert(k, k) =~= keyed_set(s.insert(k)));
    if keyed_set(s) == keyed_set(t) {
        assert forall|x: u64| s.contains(x) <==> t.contains(x) by {
            assert(keyed_set(s).contains_key(x) == keyed_set(t).contains_key(x));
        }
        assert(s =~= t);
    }
}

/// A sequence of items with distinct keys holds, as a multiset, exactly the items of its map.
pub proof fn lemma_distinct_bag<C: UniqueCollection>(r: Seq<C::Item>)
    requires
        keys_fresh::<C>(Map::empty(), r, r.len() as int),
    ensures
        r.to_multiset() =~= contents_bag(items_map::<C>(r)),
        items_map::<C>(r).values() =~= r.to_set(),
        r.no_duplicates(),
{
    broadcast use vstd::multiset::group_multiset_axioms;
    broadcast use vstd::seq_lib::group_to_multiset_ensures;
    broadcast use vstd::seq_lib::seq_to_set_is_finite;

    lemma_items_map::<C>(r);
    let m = items_map::<C>(r);
    assert forall|i: int, j: int| 0 <= i < r.len() && 0 <= j < r.len() && i != j implies r[i]
        != r[j] by {
        if i < j {
            assert(C::key_of(r[i]) != C::key_of(r[j]));
        } else {
            assert(C::key_of(r[j]) != C::key_of(r[i]));
        }
    }
    assert(r.no_duplicates());
    r.lemma_multiset_has_no_duplicates();
    assert forall|x: C::Item| #[trigger] m.values().contains(x) <==> r.to_set().contains(x) by {
        if r.to_set().contains(x) {
            let i = choose|i: int| 0 <= i < r.len() && r[i] == x;
            assert forall|j: int| i < j < r.len() implies C::key_of(r[j]) != C::key_of(r[i]) by {}
            assert(m.contains_key(C::key_of(r[i])));
            assert(m[C::key_of(r[i])] == x);
        }
        if m.values().contains(x) {
            let k = choose|k: u64| m.contains_key(k) && m[k] == x;
            let i = choose|i: int| 0 <= i < r.len() && C::key_of(r[i]) == k;
            assert forall|j: int| i < j < r.len() implies C::key_of(r[j]) != C::key_of(r[i]) by {}
            assert(m[C::key_of(r[i])] == r[i]);
            assert(r.contains(x));
        }
    }
    assert(m.values() =~= r.to_set());
    let fm = Map::new(|k: C::Item| m.values().contains(k), |v: C::Item| 1nat);
    assert(fm.dom() =~= r.to_set());
    assert forall|x: C::Item| r.to_multiset().count(x) == contents_bag(m).count(x) by {
        if r.contains(x) {
            assert(r.to_multiset().contains(x));
            assert(fm.dom().contains(x));
        } else {
            assert(!fm.dom().contains(x));
        }
    }
}

/// Adds `items`, whose keys are distinct and new to `coll`, one by one.
pub fn absorb_items<C: UniqueCollection>(coll: &mut C, items: Vec<C::Item>)
    requires
        keys_fresh::<C>(old(coll).contents(), items@, items@.len() as int),
    ensures
        final(coll).contents() == old(coll).contents().union_prefer_right(items_map::<C>(items@)),
{
    let ghost s = items@;
    let ghost base = coll.contents();
    let mut items = items;
    let mut rev: Vec<C::Item> = Vec::new();
    while items.len() > 0
        invariant
            s == items@ + rev@.reverse(),
        decreases items.len(),
    {
        let x = items.pop().unwrap();
        rev.push(x);
        proof {
            assert(s =~= items@ + rev@.reverse());
        }
    }
    let ghost mut i: int = 0;
    proof {
        assert(rev@.reverse() =~= s);
        assert(s.take(0) =~= Seq::<C::Item>::empty());
        assert(base.union_prefer_right(Map::empty()) =~= base);
    }
    while rev.len() > 0
        invariant
            0 <= i <= s.len(),
            rev@.reverse() == s.skip(i),
            keys_fresh::<C>(base, s, s.len() as int),
            coll.contents() == base.union_prefer_right(items_map::<C>(s.take(i))),
        decreases rev.len(),
    {
        let ghost before = rev@;
        let x = rev.pop().unwrap();
        proof {
            assert(before.reverse().len() == s.len() - i);
            assert(before.reverse()[0] == before[before.len() - 1]);
            assert(s.skip(i)[0] == x);
            assert(x == s[i]);
            assert(keys_fresh::<C>(base, s, i));
            lemma_fresh_prefix_step::<C>(base, s, i, coll.contents());
            assert(keys_fresh::<C>(base, s, i + 1));
        }
        coll.insert_new(x);
        proof {
            assert forall|k: int| 0 <= k < rev@.len() implies rev@.reverse()[k] == s.skip(i + 1)[k] by {
                assert(rev@[rev@.len() - 1 - k] == before[before.len() - 1 - (k + 1)]);
                assert(before.reverse()[k + 1] == s.skip(i)[k + 1]);
            }
            assert(rev@.reverse() =~= s.skip(i + 1));
            i = i + 1;
        }
    }
    proof {
        assert(s.skip(i).len() == 0);
        assert(i == s.len());
        assert(s.take(i) =~= s);
    }
}

/// The items of `s`, each under its key; a later item replaces an earlier one with its key.
pub open spec fn items_map<C: UniqueCollection>(s: Seq<C::Item>) -> Map<u64, C::Item>
    decreases s.len(),
{
    if s.len() == 0 {
        Map::empty()
    } else {
        items_map::<C>(s.drop_last()).insert(C::key_of(s.last()), s.last())
    }
}

/// The first `n` items of `s` have distinct keys, none of which `base` holds.
pub open spec fn keys_fresh<C: UniqueCollection>(
    base: Map<u64, C::Item>,
    s: Seq<C::Item>,
    n: int,
) -> bool {
    &&& forall|i: int| 0 <= i < n ==> !base.contains_key(#[trigger] C::key_of(s[i]))
    &&& forall|i: int, j: int|
        0 <= i < j < n ==> #[trigger] C::key_of(s[i]) != #[trigger] C::key_of(s[j])
}

/// Item `j` of `s` is the first whose key is already taken, by `base` or by an earlier item.
pub open spec fn collides_at<C: UniqueCollection>(
    base: Map<u64, C::Item>,
    s: Seq<C::Item>,
    j: int,
) -> bool {
    &&& 0 <= j < s.len()
    &&& keys_fresh::<C>(base, s, j)
    &&& !keys_fresh::<C>(base, s, j + 1)
}

/// Every item of `s` was added to `base`: the items have distinct keys new to `base`, and `post`
/// holds `base` together with them.
pub open spec fn added_all<C: UniqueCollection>(
    base: Map<u64, C::Item>,
    s: Seq<C::Item>,
    post: Map<u64, C::Item>,
) -> bool {
    &&& keys_fresh::<C>(base, s, s.len() as int)
    &&& post == base.union_prefer_right(items_map::<C>(s))
}

/// Item `j` of `s` is the first whose key was taken, it is `item`, and `rest` is what follows
/// it.
pub open spec fn stopped_at<C: UniqueCollection, I: ItemIterator<Item = C::Item>>(
    base: Map<u64, C::Item>,
    s: Seq<C::Item>,
    j: int,
    item: C::Item,
    rest: I,
) -> bool {
    &&& collides_at::<C>(base, s, j)
    &&& item == s[j]
    &&& rest.remaining() == s.skip(j + 1)
}

/// A key is in the map of `s` exactly when some item of `s` has it, and the map holds the last
/// such item.
pub proof fn lemma_items_map<C: UniqueCollection>(s: Seq<C::Item>)
    ensures
        forall|k: u64|
            #![trigger items_map::<C>(s).contains_key(k)]
            items_map::<C>(s).contains_key(k) <==> exists|i: int|
                0 <= i < s.len() && C::key_of(s[i]) == k,
        forall|i: int|
            0 <= i < s.len() && (forall|j: int| i < j < s.len() ==> C::key_of(s[j]) != C::key_of(s[i]))
                ==> #[trigger] items_map::<C>(s)[C::key_of(s[i])] == s[i],
    decreases s.len(),
{
    if s.len() > 0 {
        let p = s.drop_last();
        lemma_items_map::<C>(p);
        assert forall|k: u64| items_map::<C>(s).contains_key(k) implies exists|i: int|
            0 <= i < s.len() && C::key_of(s[i]) == k by {
            if k != C::key_of(s.last()) {
                assert(items_map::<C>(p).contains_key(k));
                let i = choose|i: int| 0 <= i < p.len() && C::key_of(p[i]) == k;
                assert(p[i] == s[i]);
                assert(C::key_of(s[i]) == k);
            } else {
                assert(C::key_of(s[s.len() - 1]) == k);
            }
        }
        assert forall|k: u64|
            (exists|i: int| 0 <= i < s.len() && C::key_of(s[i]) == k) implies items_map::<C>(
            s,
        ).contains_key(k) by {
            let i = choose|i: int| 0 <= i < s.len() && C::key_of(s[i]) == k;
            if i < s.len() - 1 {
                assert(p[i] == s[i]);
                assert(C::key_of(p[i]) == k);
                assert(items_map::<C>(p).contains_key(k));
            }
        }
        assert forall|i: int|
            0 <= i < s.len() && (forall|j: int|
                i < j < s.len() ==> C::key_of(s[j]) != C::key_of(s[i])) implies #[trigger] items_map::<
            C,
        >(s)[C::key_of(s[i])] == s[i] by {
            if i < s.len() - 1 {
                assert(C::key_of(s[s.len() - 1]) != C::key_of(s[i]));
                assert(p[i] == s[i]);
                assert forall|j: int| i < j < p.len() implies C::key_of(p[j]) != C::key_of(p[i]) by {
                    assert(p[j] == s[j]);
                }
                assert(items_map::<C>(p)[C::key_of(p[i])] == p[i]);
            }
        }
    }
}

/// Taking one more item of `s` adds it to the map of the prefix.
pub proof fn lemma_items_map_take<C: UniqueCollection>(s: Seq<C::Item>, i: int)
    requires
        0 <= i < s.len(),
    ensures
        items_map::<C>(s.take(i + 1)) == items_map::<C>(s.take(i)).insert(C::key_of(s[i]), s[i]),
{
    assert(s.take(i + 1).drop_last() =~= s.take(i));
}

/// A prefix whose keys are fresh maps exactly the keys of its items.
pub proof fn lemma_fresh_prefix_step<C: UniqueCollection>(
    base: Map<u64, C::Item>,
    s: Seq<C::Item>,
    i: int,
    held: Map<u64, C::Item>,
)
    requires
        0 <= i < s.len(),
        keys_fresh::<C>(base, s, i),
        held == base.union_prefer_right(items_map::<C>(s.take(i))),
    ensures
        held.contains_key(C::key_of(s[i])) <==> !keys_fresh::<C>(base, s, i + 1),
        !held.contains_key(C::key_of(s[i])) ==> held.insert(C::key_of(s[i]), s[i])
            == base.union_prefer_right(items_map::<C>(s.take(i + 1))),
{
    let k = C::key_of(s[i]);
    let p = s.take(i);
    lemma_items_map::<C>(p);
    lemma_items_map_take::<C>(s, i);
    if held.contains_key(k) {
        if !base.contains_key(k) {
            assert(items_map::<C>(p).contains_key(k));
            let j = choose|j: int| 0 <= j < p.len() && C::key_of(p[j]) == k;
            assert(C::key_of(s[j]) == C::key_of(s[i]));
        }
    } else {
        assert(!items_map::<C>(p).contains_key(k));
        assert forall|a: int, b: int| 0 <= a < b < i + 1 implies #[trigger] C::key_of(s[a])
            != #[trigger] C::key_of(s[b]) by {
            if b == i {
                assert(C::key_of(p[a]) == C::key_of(s[a]));
            }
        }
        assert(held.insert(k, s[i]) =~= base.union_prefer_right(items_map::<C>(s.take(i + 1))));
    }
}

/// Adds `item` to `coll`, or refuses it with a [`Collision`] when its key is already held, in
/// which case `coll` is unchanged.
pub fn extend_one_unique<C: UniqueCollection>(coll: &mut C, item: C::Item) -> (r: Result<
    (),
    Collision<C::Item>,
>)
    ensures
        r is Ok <==> !old(coll).contents().contains_key(C::key_of(item)),
        r is Ok ==> final(coll).contents() == old(coll).contents().insert(C::key_of(item), item),
        r matches Err(e) ==> e.item == item && *final(coll) == *old(coll),
{
    if coll.contains_key_of(&item) {
        Err(Collision::new(item))
    } else {
        coll.insert_new(item);
        Ok(())
    }
}

/// Adds the items of `iter` to `coll` one by one, stopping at the first item whose key is
/// already held. The items added before it stay (a basic error guarantee); the error holds the
/// rest of the iterator and the refused item.
#[verifier::loop_isolation(false)]
pub fn extend_unique<C: UniqueCollection, I: ItemIterator<Item = C::Item>>(
    coll: &mut C,
    iter: I,
) -> (r: Result<(), (I, C::Item)>)
    ensures
        ({
            let s = iter.remaining();
            let base = old(coll).contents();
            &&& r is Ok <==> keys_fresh::<C>(base, s, s.len() as int)
            &&& r is Ok ==> final(coll).contents() == base.union_prefer_right(items_map::<C>(s))
            &&& r matches Err((rest, item)) ==> exists|j: int|
                {
                    &&& collides_at::<C>(base, s, j)
                    &&& item == s[j]
                    &&& rest.remaining() == s.skip(j + 1)
                    &&& final(coll).contents() == base.union_prefer_right(
                        items_map::<C>(s.take(j)),
                    )
                }
        }),
{
    let ghost s = iter.remaining();
    let ghost base = coll.contents();
    let mut iter = iter;
    let ghost mut i: int = 0;
    proof {
        assert(s.take(0) =~= Seq::<C::Item>::empty());
        assert(base.union_prefer_right(Map::empty()) =~= base);
    }
    loop
        invariant
            0 <= i <= s.len(),
            iter.remaining() == s.skip(i),
            keys_fresh::<C>(base, s, i),
            coll.contents() == base.union_prefer_right(items_map::<C>(s.take(i))),
        decreases s.len() - i,
    {
        match iter.next() {
            None => {
                proof {
                    assert(s.take(i) =~= s);
                }
                return Ok(());
            },
            Some(item) => {
                proof {
                    assert(item == s[i]);
                    lemma_fresh_prefix_step::<C>(base, s, i, coll.contents());
                }
                if coll.contains_key_of(&item) {
                    proof {
                        assert(iter.remaining() =~= s.skip(i + 1));
                        assert(collides_at::<C>(base, s, i));
                    }
                    return Err((iter, item));
                }
                coll.insert_new(item);
                proof {
                    i = i + 1;
                    assert(iter.remaining() =~= s.skip(i));
                }
            },
        }
    }
}

/// Collects the items of `iter` into `staging`, checking each key against both `coll` and
/// `staging`, and moves them into `coll` only when every key was new. On failure `coll` is left
/// unchanged (a strong error guarantee) and the error holds the rest of the iterator, the
/// staged items and the refused item.
#[verifier::loop_isolation(false)]
pub fn extend_unique_safe<C: UniqueCollection, I: ItemIterator<Item = C::Item>>(
    coll: &mut C,
    iter: I,
) -> (r: Result<(), (I, C, C::Item)>)
    ensures
        ({
            let s = iter.remaining();
            let base = old(coll).contents();
            &&& r is Ok <==> keys_fresh::<C>(base, s, s.len() as int)
            &&& r is Ok ==> final(coll).contents() == base.union_prefer_right(items_map::<C>(s))
            &&& r is Err ==> *final(coll) == *old(coll)
            &&& r matches Err((rest, staged, item)) ==> exists|j: int|
                {
                    &&& collides_at::<C>(base, s, j)
                    &&& item == s[j]
                    &&& rest.remaining() == s.skip(j + 1)
                    &&& staged.contents() == items_map::<C>(s.take(j))
                }
        }),
{
    let ghost s = iter.remaining();
    let ghost base = coll.contents();
    let mut iter = iter;
    let hint = iter.size_hint();
    let mut staged = coll.staging(hint.0);
    let ghost mut i: int = 0;
    proof {
        assert(s.take(0) =~= Seq::<C::Item>::empty());
    }
    loop
        invariant
            0 <= i <= s.len(),
            iter.remaining() == s.skip(i),
            keys_fresh::<C>(base, s, i),
            coll.contents() == base,
            *coll == *old(coll),
            staged.contents() == items_map::<C>(s.take(i)),
        decreases s.len() - i,
    {
        match iter.next() {
            None => {
                proof {
                    assert(s.take(i) =~= s);
                    lemma_items_map::<C>(s);
                }
                let ghost staged_contents = staged.contents();
                let items = staged.drain();
                proof {
                    let t = items@;
                    lemma_drained::<C>(t, staged_contents);
                    lemma_items_map::<C>(t);
                    lemma_items_map::<C>(s);
                    assert forall|a: int| 0 <= a < t.len() implies !base.contains_key(
                        #[trigger] C::key_of(t[a]),
                    ) by {
                        let k = C::key_of(t[a]);
                        assert(items_map::<C>(t).contains_key(k));
                        let j = choose|j: int| 0 <= j < s.len() && C::key_of(s[j]) == k;
                    }
                    assert(keys_fresh::<C>(base, t, t.len() as int));
                }
                absorb_items(coll, items);
                return Ok(());
            },
            Some(item) => {
                proof {
                    assert(item == s[i]);
                    let held = base.union_prefer_right(items_map::<C>(s.take(i)));
                    lemma_fresh_prefix_step::<C>(base, s, i, held);
                    lemma_items_map_take::<C>(s, i);
                    assert(iter.remaining() =~= s.skip(i + 1));
                }
                if coll.contains_key_of(&item) {
                    proof {
                        assert(collides_at::<C>(base, s, i));
                    }
                    return Err((iter, staged, item));
                }
                if staged.contains_key_of(&item) {
                    proof {
                        assert(collides_at::<C>(base, s, i));
                    }
                    return Err((iter, staged, item));
                }
                staged.insert_new(item);
                proof {
                    i = i + 1;
                }
            },
        }
    }
}

/// The outcome of building a collection from `iter`: it succeeds exactly when the keys are
/// distinct, holding every item; otherwise the error holds the items before the first repeated
/// key, that item, and the rest of the iterator.
pub open spec fn collected_unique<C: UniqueCollection, I: ItemIterator<Item = C::Item>>(
    iter: I,
    r: Result<C, CollectionError<I, C, Collision<C::Item>>>,
) -> bool {
    let s = iter.remaining();
    let none = Map::<u64, C::Item>::empty();
    &&& r is Ok <==> keys_fresh::<C>(none, s, s.len() as int)
    &&& r matches Ok(c) ==> added_all::<C>(none, s, c.contents())
    &&& r matches Err(e) ==> exists|j: int|
        #![trigger collides_at::<C>(none, s, j)]
        {
            &&& stopped_at::<C, I>(none, s, j, e@.error.item, e@.iterator)
            &&& e@.collected.contents() == items_map::<C>(s.take(j))
        }
}

/// The outcome of extending `pre` with `iter` item by item: it succeeds exactly when every key
/// is new; otherwise the items before the first taken key stay in `post`, and the error holds
/// that item, the rest of the iterator, and an empty collection.
pub open spec fn extended_unique<C: UniqueCollection, I: ItemIterator<Item = C::Item>>(
    pre: C,
    iter: I,
    post: C,
    r: Result<(), CollectionError<I, C, Collision<C::Item>>>,
) -> bool {
    let s = iter.remaining();
    let base = pre.contents();
    &&& r is Ok <==> keys_fresh::<C>(base, s, s.len() as int)
    &&& r is Ok ==> added_all::<C>(base, s, post.contents())
    &&& r matches Err(e) ==> exists|j: int|
        #![trigger collides_at::<C>(base, s, j)]
        {
            &&& stopped_at::<C, I>(base, s, j, e@.error.item, e@.iterator)
            &&& e@.collected.contents() == Map::<u64, C::Item>::empty()
            &&& post.contents() == base.union_prefer_right(items_map::<C>(s.take(j)))
        }
}

/// The outcome of extending `pre` with `iter` all at once: it succeeds exactly when every key is
/// new; otherwise `post` is `pre`, and the error holds the items staged before the first taken
/// key, that item, and the rest of the iterator.
pub open spec fn extended_unique_safe<C: UniqueCollection, I: ItemIterator<Item = C::Item>>(
    pre: C,
    iter: I,
    post: C,
    r: Result<(), CollectionError<I, C, Collision<C::Item>>>,
) -> bool {
    let s = iter.remaining();
    let base = pre.contents();
    &&& r is Ok <==> keys_fresh::<C>(base, s, s.len() as int)
    &&& r is Ok ==> added_all::<C>(base, s, post.contents())
    &&& r is Err ==> post == pre
    &&& r matches Err(e) ==> exists|j: int|
        #![trigger collides_at::<C>(base, s, j)]
        {
            &&& stopped_at::<C, I>(base, s, j, e@.error.item, e@.iterator)
            &&& e@.collected.contents() == items_map::<C>(s.take(j))
        }
}

/// The outcome of adding `item` to `pre`: it succeeds exactly when its key is new; otherwise
/// `post` is `pre` and the error holds the item.
pub open spec fn extended_one_unique<C: UniqueCollection>(
    pre: C,
    item: C::Item,
    post: C,
    r: Result<(), Collision<C::Item>>,
) -> bool {
    &&& r is Ok <==> !pre.contents().contains_key(C::key_of(item))
    &&& r is Ok ==> post.contents() == pre.contents().insert(C::key_of(item), item)
    &&& r matches Err(e) ==> e.item == item && post == pre
}

/// Builds a collection from `iter`, starting from the empty `coll`, failing at the first
/// repeated key with a [`CollectionError`] that holds the items collected so far.
pub fn collect_unique<C: UniqueCollection, I: ItemIterator<Item = C::Item>>(
    coll: C,
    iter: I,
) -> (r: Result<C, CollectionError<I, C, Collision<C::Item>>>)
    requires
        coll.contents() == Map::<u64, C::Item>::empty(),
    ensures
        collected_unique::<C, I>(iter, r),
{
    let ghost s = iter.remaining();
    let ghost none = Map::<u64, C::Item>::empty();
    let mut coll = coll;
    proof {
        assert(none.union_prefer_right(items_map::<C>(s)) =~= items_map::<C>(s));
    }
    match extend_unique(&mut coll, iter) {
        Ok(()) => Ok(coll),
        Err((rest, item)) => {
            let e = CollectionError::collision(rest, coll, item);
            proof {
                let j = choose|j: int|
                    {
                        &&& collides_at::<C>(none, s, j)
                        &&& item == s[j]
                        &&& rest.remaining() == s.skip(j + 1)
                        &&& coll.contents() == none.union_prefer_right(items_map::<C>(s.take(j)))
                    };
                assert(none.union_prefer_right(items_map::<C>(s.take(j))) =~= items_map::<C>(
                    s.take(j),
                ));
                assert(stopped_at::<C, I>(none, s, j, e@.error.item, e@.iterator));
            }
            Err(e)
        },
    }
}

/// Extends `coll` with `iter` item by item, stopping at the first taken key (a basic error
/// guarantee); the error holds the refused item, the rest of the iterator and an empty
/// collection.
pub fn try_extend_unique<C: UniqueCollection, I: ItemIterator<Item = C::Item>>(
    coll: &mut C,
    iter: I,
) -> (r: Result<(), CollectionError<I, C, Collision<C::Item>>>)
    ensures
        extended_unique::<C, I>(*old(coll), iter, *final(coll), r),
{
    let ghost s = iter.remaining();
    let ghost base = coll.contents();
    match extend_unique(coll, iter) {
        Ok(()) => Ok(()),
        Err((rest, item)) => {
            let empty = coll.staging(0);
            let e = CollectionError::collision(rest, empty, item);
            proof {
                let j = choose|j: int|
                    {
                        &&& collides_at::<C>(base, s, j)
                        &&& item == s[j]
                        &&& rest.remaining() == s.skip(j + 1)
                        &&& coll.contents() == base.union_prefer_right(items_map::<C>(s.take(j)))
                    };
                assert(stopped_at::<C, I>(base, s, j, e@.error.item, e@.iterator));
            }
            Err(e)
        },
    }
}

/// Extends `coll` with `iter` all at once, leaving it unchanged when a key is taken (a strong
/// error guarantee); the error holds the staged items, the refused item and the rest of the
/// iterator.
pub fn try_extend_unique_safe<C: UniqueCollection, I: ItemIterator<Item = C::Item>>(
    coll: &mut C,
    iter: I,
) -> (r: Result<(), CollectionError<I, C, Collision<C::Item>>>)
    ensures
        extended_unique_safe::<C, I>(*old(coll), iter, *final(coll), r),
{
    let ghost s = iter.remaining();
    let ghost base = coll.contents();
    match extend_unique_safe(coll, iter) {
        Ok(()) => Ok(()),
        Err((rest, staged, item)) => {
            let e = CollectionError::collision(rest, staged, item);
            proof {
                let j = choose|j: int|
                    {
                        &&& collides_at::<C>(base, s, j)
                        &&& item == s[j]
                        &&& rest.remaining() == s.skip(j + 1)
                        &&& staged.contents() == items_map::<C>(s.take(j))
                    };
                assert(stopped_at::<C, I>(base, s, j, e@.error.item, e@.iterator));
            }
            Err(e)
        },
    }
}

/// Extends `map` with the items of `iter` through [`TryExtendOne::try_extend_one`], stopping
/// at the first item it refuses.
#[verifier::loop_isolation(false)]
pub fn try_extend_basic<T, C: TryExtendOne<Item = T>, I: ItemIterator<Item = T>>(
    map: &mut C,
    iter: &mut I,
) -> (r: Result<(), C::Error>)
    ensures
        ({
            let s = old(iter).remaining();
            &&& r is Ok ==> final(iter).remaining().len() == 0 && extended_each::<C>(
                *old(map),
                s,
                *final(map),
            )
            &&& r matches Err(e) ==> exists|k: int, mid: C|
                {
                    &&& 0 <= k < s.len()
                    &&& extended_each::<C>(*old(map), s.take(k), mid)
                    &&& C::extend_one_ensures(mid, s[k], *final(map), Err(e))
                    &&& final(iter).remaining() == s.skip(k + 1)
                }
        }),
{
    let ghost s = iter.remaining();
    let ghost pre = *map;
    let ghost mut k: int = 0;
    proof {
        assert(s.take(0) =~= Seq::<T>::empty());
    }
    loop
        invariant
            0 <= k <= s.len(),
            iter.remaining() == s.skip(k),
            extended_each::<C>(pre, s.take(k), *map),
        decreases s.len() - k,
    {
        match iter.next() {
            None => {
                proof {
                    assert(s.take(k) =~= s);
                }
                return Ok(());
            },
            Some(item) => {
                let ghost mid = *map;
                proof {
                    assert(item == s[k]);
                    assert(iter.remaining() =~= s.skip(k + 1));
                }
                let res = map.try_extend_one(item);
                match res {
                    Ok(()) => {
                        proof {
                            assert(C::extend_one_ensures(mid, item, *map, res));
                            assert(res matches Ok(u) && u == ());
                            assert(res == Ok::<(), C::Error>(()));
                            assert(s.take(k + 1).drop_last() =~= s.take(k));
                            assert(s.take(k + 1).last() == item);
                            assert(extended_each::<C>(pre, s.take(k + 1), *map));
                            k = k + 1;
                        }
                    },
                    Err(e) => {
                        return Err(e);
                    },
                }
            },
        }
    }
}

/// `post` results from `pre` by adding each item of `items` in turn, each addition succeeding.
pub open spec fn extended_each<C: TryExtendOne>(pre: C, items: Seq<C::Item>, post: C) -> bool
    decreases items.len(),
{
    if items.len() == 0 {
        post == pre
    } else {
        exists|mid: C|
            extended_each::<C>(pre, items.drop_last(), mid) && #[trigger] C::extend_one_ensures(
                mid,
                items.last(),
                post,
                Ok(()),
            )
    }
}

/// Returns `f`; names the type of a constructor that builds a collection from an iterator.
pub fn infer_ctor<I, C, F: Fn(&I) -> C>(f: F) -> (r: F)
    ensures
        r == f,
{
    f
}

/// Returns `f`; names the type of a function that reserves room in a collection.
pub fn infer_reserve<I, C, F: Fn(&mut C, &I)>(f: F) -> (r: F)
    ensures
        r == f,
{
    f
}

/// Returns `f`; names the type of a function that builds an empty collection like another.
pub fn infer_build_empty<C, F: Fn(&mut C) -> C>(f: F) -> (r: F)
    ensures
        r == f,
{
    f
}

/// Returns `f`; names the type of a function that builds a staging collection.
pub fn infer_build_staging<C, I, F: Fn(&I, &mut C) -> C>(f: F) -> (r: F)
    ensures
        r == f,
{
    f
}

/// Returns `f`; names the type of a function that checks whether a collection holds an item.
pub fn infer_contains<C, T, F: Fn(&C, &T) -> bool>(f: F) -> (r: F)
    ensures
        r == f,
{
    f
}

/// Returns `f`; names the type of a function that inserts an item into a collection.
pub fn infer_insert<C, T, F: Fn(&mut C, T)>(f: F) -> (r: F)
    ensures
        r == f,
{
    f
}

/// The first `j` items of a sequence whose first `j` keys are fresh have, together, the
/// multiset of the items their map holds; and the sequence splits around item `j` into those
/// items, item `j` and the items after it.
proof fn lemma_split_at_collision<C: UniqueCollection>(
    base: Map<u64, C::Item>,
    s: Seq<C::Item>,
    j: int,
)
    requires
        0 <= j < s.len(),
        keys_fresh::<C>(base, s, j),
    ensures
        s.take(j).to_multiset() =~= contents_bag(items_map::<C>(s.take(j))),
        s.to_multiset() =~= s.take(j).to_multiset().add(Multiset::singleton(s[j])).add(
            s.skip(j + 1).to_multiset(),
        ),
{
    broadcast use vstd::seq_lib::group_to_multiset_ensures;

    let p = s.take(j);
    assert forall|a: int, b: int| 0 <= a < b < p.len() implies #[trigger] C::key_of(p[a])
        != #[trigger] C::key_of(p[b]) by {
        assert(p[a] == s[a] && p[b] == s[b]);
    }
    assert(keys_fresh::<C>(Map::empty(), p, p.len() as int));
    lemma_distinct_bag::<C>(p);
    assert(s =~= p + seq![s[j]] + s.skip(j + 1));
    vstd::seq_lib::lemma_multiset_commutative(p, seq![s[j]]);
    vstd::seq_lib::lemma_multiset_commutative(p + seq![s[j]], s.skip(j + 1));
    assert(seq![s[j]] =~= Seq::<C::Item>::empty().push(s[j]));
    assert(seq![s[j]].to_multiset() =~= Multiset::singleton(s[j]));
}

/// Building a keyed collection loses no item: when it fails, the refused item, the items
/// collected so far and the items left in the iterator are, together, exactly the items of the
/// iterator.
pub proof fn law_collect_unique_loses_nothing<C: UniqueCollection, I: ItemIterator<Item = C::Item>>(
    iter: I,
    e: CollectionError<I, C, Collision<C::Item>>,
)
    requires
        collected_unique::<C, I>(iter, Err(e)),
    ensures
        contents_bag(e@.collected.contents()).add(Multiset::singleton(e@.error.item)).add(
            e@.iterator.remaining().to_multiset(),
        ) =~= iter.remaining().to_multiset(),
{
    let s = iter.remaining();
    let none = Map::<u64, C::Item>::empty();
    let j = choose|j: int| #![trigger collides_at::<C>(none, s, j)]
        {
            &&& stopped_at::<C, I>(none, s, j, e@.error.item, e@.iterator)
            &&& e@.collected.contents() == items_map::<C>(s.take(j))
        };
    lemma_split_at_collision::<C>(none, s, j);
}

/// Extending a keyed collection all at once loses no item: when it fails, the refused item, the
/// items staged and the items left in the iterator are, together, exactly the items of the
/// iterator.
pub proof fn law_extend_unique_safe_loses_nothing<
    C: UniqueCollection,
    I: ItemIterator<Item = C::Item>,
>(pre: C, iter: I, post: C, e: CollectionError<I, C, Collision<C::Item>>)
    requires
        extended_unique_safe::<C, I>(pre, iter, post, Err(e)),
    ensures
        post == pre,
        contents_bag(e@.collected.contents()).add(Multiset::singleton(e@.error.item)).add(
            e@.iterator.remaining().to_multiset(),
        ) =~= iter.remaining().to_multiset(),
{
    let s = iter.remaining();
    let base = pre.contents();
    let j = choose|j: int| #![trigger collides_at::<C>(base, s, j)]
        {
            &&& stopped_at::<C, I>(base, s, j, e@.error.item, e@.iterator)
            &&& e@.collected.contents() == items_map::<C>(s.take(j))
        };
    lemma_split_at_collision::<C>(base, s, j);
}

/// Extending a keyed collection item by item loses no item: when it fails, the collection holds
/// what it held and the items added, and those items, the refused item and the items left in
/// the iterator are, together, exactly the items of the iterator.
pub proof fn law_extend_unique_loses_nothing<C: UniqueCollection, I: ItemIterator<Item = C::Item>>(
    pre: C,
    iter: I,
    post: C,
    e: CollectionError<I, C, Collision<C::Item>>,
)
    requires
        extended_unique::<C, I>(pre, iter, post, Err(e)),
    ensures
        exists|added: Map<u64, C::Item>|
            {
                &&& post.contents() == pre.contents().union_prefer_right(added)
                &&& added.dom().disjoint(pre.contents().dom())
                &&& contents_bag(added).add(Multiset::singleton(e@.error.item)).add(
                    e@.iterator.remaining().to_multiset(),
                ) =~= iter.remaining().to_multiset()
            },
{
    let s = iter.remaining();
    let base = pre.contents();
    let j = choose|j: int| #![trigger collides_at::<C>(base, s, j)]
        {
            &&& stopped_at::<C, I>(base, s, j, e@.error.item, e@.iterator)
            &&& e@.collected.contents() == Map::<u64, C::Item>::empty()
            &&& post.contents() == base.union_prefer_right(items_map::<C>(s.take(j)))
        };
    lemma_split_at_collision::<C>(base, s, j);
    let added = items_map::<C>(s.take(j));
    lemma_items_map::<C>(s.take(j));
    assert forall|k: u64| added.dom().contains(k) implies !base.dom().contains(k) by {
        let i = choose|i: int| 0 <= i < s.take(j).len() && C::key_of(s.take(j)[i]) == k;
        assert(s.take(j)[i] == s[i]);
    }
}

/// Extending item by item and extending all at once agree: both succeed on the same inputs,
/// with the same contents; and a failed extension all at once leaves the collection as it was.
pub proof fn law_extend_safe_agrees_with_extend<
    C: UniqueCollection,
    I: ItemIterator<Item = C::Item>,
>(
    pre: C,
    iter: I,
    post_basic: C,
    r_basic: Result<(), CollectionError<I, C, Collision<C::Item>>>,
    post_safe: C,
    r_safe: Result<(), CollectionError<I, C, Collision<C::Item>>>,
)
    requires
        extended_unique::<C, I>(pre, iter, post_basic, r_basic),
        extended_unique_safe::<C, I>(pre, iter, post_safe, r_safe),
    ensures
        r_basic is Ok <==> r_safe is Ok,
        r_basic is Ok ==> post_basic.contents() == post_safe.contents(),
        r_safe is Err ==> post_safe == pre,
{
}

/// Building a collection from an iterator agrees with extending an empty one by it: both
/// succeed on the same inputs, with the same contents.
pub proof fn law_collect_is_extending_empty<C: UniqueCollection, I: ItemIterator<Item = C::Item>>(
    iter: I,
    r_collect: Result<C, CollectionError<I, C, Collision<C::Item>>>,
    empty: C,
    post: C,
    r_extend: Result<(), CollectionError<I, C, Collision<C::Item>>>,
)
    requires
        empty.contents() == Map::<u64, C::Item>::empty(),
        collected_unique::<C, I>(iter, r_collect),
        extended_unique::<C, I>(empty, iter, post, r_extend),
    ensures
        r_collect is Ok <==> r_extend is Ok,
        r_collect matches Ok(c) ==> c.contents() == post.contents(),
{
    let s = iter.remaining();
    assert(Map::<u64, C::Item>::empty().union_prefer_right(items_map::<C>(s)) =~= items_map::<C>(
        s,
    ));
}

} // verus!
