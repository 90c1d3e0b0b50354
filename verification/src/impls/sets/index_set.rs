use indexmap::IndexSet;
use vstd::multiset::Multiset;
use vstd::prelude::*;

use crate::errors::{CollectionCollision, ItemCollision};
use crate::iter::{IntoItems, ItemCount, ItemIterator};
use crate::traits::{TryExtend, TryExtendOne, TryExtendSafe, TryFromIterator};

verus! {

#[verifier::external_type_specification]
#[verifier::external_body]
#[verifier::reject_recursive_types(T)]
#[verifier::reject_recursive_types(S)]
pub struct ExIndexSet<T, S>(IndexSet<T, S>);

/// The values of an index set, in insertion order.
pub uninterp spec fn index_set_values(s: IndexSet<u64>) -> Seq<u64>;

/// The first `n` values of `s` are distinct and none of them is in `base`.
pub open spec fn values_fresh(base: Seq<u64>, s: Seq<u64>, n: int) -> bool {
    &&& forall|i: int| 0 <= i < n ==> !base.contains(#[trigger] s[i])
    &&& forall|i: int, j: int| 0 <= i < j < n ==> #[trigger] s[i] != #[trigger] s[j]
}

/// Value `j` of `s` is the first that is in `base` or repeats an earlier value of `s`.
pub open spec fn repeats_at(base: Seq<u64>, s: Seq<u64>, j: int) -> bool {
    &&& 0 <= j < s.len()
    &&& values_fresh(base, s, j)
    &&& !values_fresh(base, s, j + 1)
}

/// `IndexSet::with_capacity`: an empty set.
#[verifier::external_body]
fn index_set_with_capacity(n: usize) -> (r: IndexSet<u64>)
    ensures
        index_set_values(r) == Seq::<u64>::empty(),
{
    IndexSet::with_capacity(n)
}

/// `IndexSet::contains`: whether `v` is one of the values.
#[verifier::external_body]
fn index_set_contains(s: &IndexSet<u64>, v: u64) -> (r: bool)
    ensures
        r == index_set_values(*s).contains(v),
{
    s.contains(&v)
}

/// `IndexSet::insert`: a new value is added last and `true` returned; a value already held
/// leaves the set as it was and `false` is returned.
#[verifier::external_body]
fn index_set_insert(s: &mut IndexSet<u64>, v: u64) -> (r: bool)
    ensures
        r == !index_set_values(*old(s)).contains(v),
        r ==> index_set_values(*final(s)) == index_set_values(*old(s)).push(v),
        !r ==> index_set_values(*final(s)) == index_set_values(*old(s)),
{
    s.insert(v)
}

/// `IndexSet::len`: the number of values held.
#[verifier::external_body]
fn index_set_len(s: &IndexSet<u64>) -> (r: usize)
    ensures
        r == index_set_values(*s).len(),
{
    s.len()
}

/// `IndexSet::into_iter`: the values in insertion order.
#[verifier::external_body]
fn index_set_into_values(s: IndexSet<u64>) -> (r: Vec<u64>)
    ensures
        r@ == index_set_values(s),
{
    s.into_iter().collect()
}

/// Adds to `set` the values of `iter` one by one, stopping at the first value that `set`
/// already holds or that `held` holds. `set` starts as `start`, empty when `held` is given; the
/// values are checked against `base`, which is `held` when given and `start` otherwise. On
/// success `set` holds `start` followed by every value, otherwise `start` followed by the values
/// before the refused one, which is returned with the rest of the iterator.
#[verifier::loop_isolation(false)]
fn insert_fresh<I: ItemIterator<Item = u64>>(
    set: &mut IndexSet<u64>,
    held: Option<&IndexSet<u64>>,
    iter: I,
) -> (r: Result<(), (I, u64)>)
    requires
        held is Some ==> index_set_values(*old(set)) == Seq::<u64>::empty(),
    ensures
        ({
            let s = iter.remaining();
            let start = index_set_values(*old(set));
            let base = match held {
                Some(h) => index_set_values(*h),
                None => start,
            };
            &&& r is Ok <==> values_fresh(base, s, s.len() as int)
            &&& r is Ok ==> index_set_values(*final(set)) == start + s
            &&& r matches Err((rest, v)) ==> exists|j: int|
                {
                    &&& repeats_at(base, s, j)
                    &&& v == s[j]
                    &&& rest.remaining() == s.skip(j + 1)
                    &&& index_set_values(*final(set)) == start + s.take(j)
                }
        }),
{
    let ghost s = iter.remaining();
    let ghost start = index_set_values(*set);
    let ghost base = match held {
        Some(h) => index_set_values(*h),
        None => start,
    };
    let mut iter = iter;
    let ghost mut i: int = 0;
    proof {
        assert(start + s.take(0) =~= start);
    }
    loop
        invariant
            0 <= i <= s.len(),
            iter.remaining() == s.skip(i),
            values_fresh(base, s, i),
            index_set_values(*set) == start + s.take(i),
        decreases s.len() - i,
    {
        match iter.next() {
            None => {
                proof {
                    assert(s.take(i) =~= s);
                }
                return Ok(());
            },
            Some(v) => {
                proof {
                    assert(v == s[i]);
                    assert(iter.remaining() =~= s.skip(i + 1));
                }
                let taken = match held {
                    Some(h) => index_set_contains(h, v),
                    None => false,
                };
                let again = index_set_contains(set, v);
                if taken || again {
                    proof {
                        if !taken && again {
                            let cur = index_set_values(*set);
                            let k = choose|k: int| 0 <= k < cur.len() && cur[k] == v;
                            if k < start.len() {
                                assert(cur[k] == start[k]);
                                assert(start.contains(v));
                            } else {
                                let kk = k - start.len();
                                assert(cur[k] == s.take(i)[kk]);
                                assert(s[kk] == s[i]);
                            }
                        }
                        assert(!values_fresh(base, s, i + 1));
                    }
                    return Err((iter, v));
                }
                proof {
                    let cur = index_set_values(*set);
                    assert forall|k: int| 0 <= k < i implies s[k] != s[i] by {
                        assert(cur[start.len() + k] == s[k]);
                    }
                    if held is None {
                        assert(!start.contains(v)) by {
                            if start.contains(v) {
                                let k = choose|k: int| 0 <= k < start.len() && start[k] == v;
                                assert(cur[k] == v);
                            }
                        }
                    }
                }
                let _ = index_set_insert(set, v);
                proof {
                    assert(start + s.take(i + 1) =~= (start + s.take(i)).push(v));
                    i = i + 1;
                }
            },
        }
    }
}

/// Appends `values`, which are distinct and none of which `set` holds, in order.
fn append_fresh(set: &mut IndexSet<u64>, values: Vec<u64>)
    requires
        values_fresh(index_set_values(*old(set)), values@, values@.len() as int),
    ensures
        index_set_values(*final(set)) == index_set_values(*old(set)) + values@,
{
    let ghost base = index_set_values(*set);
    let n = values.len();
    let mut k: usize = 0;
    proof {
        assert(base + values@.take(0) =~= base);
    }
    while k < n
        invariant
            n == values@.len(),
            k <= n,
            values_fresh(base, values@, n as int),
            index_set_values(*set) == base + values@.take(k as int),
        decreases n - k,
    {
        let v = values[k];
        proof {
            let cur = index_set_values(*set);
            assert(!cur.contains(v)) by {
                if cur.contains(v) {
                    let a = choose|a: int| 0 <= a < cur.len() && cur[a] == v;
                    if a < base.len() {
                        assert(base[a] == v);
                        assert(base.contains(values@[k as int]));
                    } else {
                        assert(values@.take(k as int)[a - base.len()] == values@[a - base.len()]);
                        assert(values@[a - base.len()] != values@[k as int]);
                    }
                }
            }
        }
        let _ = index_set_insert(set, v);
        proof {
            assert(base + values@.take(k + 1) =~= (base + values@.take(k as int)).push(v));
        }
        k = k + 1;
    }
    proof {
        assert(values@.take(n as int) =~= values@);
    }
}

/// Collects values into an index set, in order, failing at the first value that repeats an
/// earlier one.
impl<I: ItemIterator<Item = u64>> TryFromIterator<I> for IndexSet<u64> {
    type Error = CollectionCollision<I, Self>;

    open spec fn from_iter_requires(iter: I) -> bool {
        true
    }

    open spec fn from_iter_ensures(iter: I, r: Result<Self, CollectionCollision<I, Self>>) -> bool {
        let s = iter.remaining();
        let none = Seq::<u64>::empty();
        &&& r is Ok <==> values_fresh(none, s, s.len() as int)
        &&& r matches Ok(set) ==> index_set_values(set) == s
        &&& r matches Err(e) ==> exists|j: int|
            #![trigger repeats_at(none, s, j)]
            {
                &&& repeats_at(none, s, j)
                &&& e@.item == s[j]
                &&& e@.iterator.remaining() == s.skip(j + 1)
                &&& index_set_values(e@.collected) == s.take(j)
            }
    }

    /// Inserts the values in order into a new set; on a repeated value, the error holds the set
    /// built so far, the repeated value and the rest of the iterator.
    fn try_from_iter(iter: I) -> (r: Result<Self, CollectionCollision<I, Self>>) {
        let ghost s = iter.remaining();
        let hint = iter.size_hint();
        let mut set = index_set_with_capacity(hint.0);
        proof {
            assert(Seq::<u64>::empty() + s =~= s);
        }
        match insert_fresh(&mut set, None, iter) {
            Ok(()) => Ok(set),
            Err((rest, v)) => {
                proof {
                    let j = choose|j: int|
                        {
                            &&& repeats_at(Seq::<u64>::empty(), s, j)
                            &&& v == s[j]
                            &&& rest.remaining() == s.skip(j + 1)
                            &&& index_set_values(set) == Seq::<u64>::empty() + s.take(j)
                        };
                    assert(Seq::<u64>::empty() + s.take(j) =~= s.take(j));
                    assert(repeats_at(Seq::<u64>::empty(), s, j));
                }
                Err(CollectionCollision::new(rest, set, v))
            },
        }
    }
}

/// Extends an index set with values, stopping at the first value already present.
impl<I: ItemIterator<Item = u64>> TryExtend<I> for IndexSet<u64> {
    type Error = CollectionCollision<I, IndexSet<u64>>;

    open spec fn extend_requires(pre: Self, iter: I) -> bool {
        true
    }

    open spec fn extend_ensures(
        pre: Self,
        iter: I,
        post: Self,
        r: Result<(), CollectionCollision<I, IndexSet<u64>>>,
    ) -> bool {
        let s = iter.remaining();
        let base = index_set_values(pre);
        &&& r is Ok <==> values_fresh(base, s, s.len() as int)
        &&& r is Ok ==> index_set_values(post) == base + s
        &&& r matches Err(e) ==> exists|j: int|
            #![trigger repeats_at(base, s, j)]
            {
                &&& repeats_at(base, s, j)
                &&& e@.item == s[j]
                &&& e@.iterator.remaining() == s.skip(j + 1)
                &&& index_set_values(e@.collected) == Seq::<u64>::empty()
                &&& index_set_values(post) == base + s.take(j)
            }
    }

    /// Adds the values in order; the values added before a collision stay in the set, and the
    /// error holds an empty set.
    fn try_extend(&mut self, iter: I) -> (r: Result<(), CollectionCollision<I, IndexSet<u64>>>) {
        let ghost s = iter.remaining();
        let ghost base = index_set_values(*self);
        match insert_fresh(self, None, iter) {
            Ok(()) => Ok(()),
            Err((rest, v)) => {
                let none = index_set_with_capacity(0);
                proof {
                    let j = choose|j: int|
                        {
                            &&& repeats_at(base, s, j)
                            &&& v == s[j]
                            &&& rest.remaining() == s.skip(j + 1)
                            &&& index_set_values(*self) == base + s.take(j)
                        };
                    assert(repeats_at(base, s, j));
                }
                Err(CollectionCollision::new(rest, none, v))
            },
        }
    }
}

/// Extends an index set with values, leaving it unchanged when a value collides.
impl<I: ItemIterator<Item = u64>> TryExtendSafe<I> for IndexSet<u64> {
    type Error = CollectionCollision<I, IndexSet<u64>>;

    open spec fn extend_safe_ensures(
        pre: Self,
        iter: I,
        post: Self,
        r: Result<(), CollectionCollision<I, IndexSet<u64>>>,
    ) -> bool {
        let s = iter.remaining();
        let base = index_set_values(pre);
        &&& r is Ok <==> values_fresh(base, s, s.len() as int)
        &&& r is Ok ==> index_set_values(post) == base + s
        &&& r matches Err(e) ==> exists|j: int|
            #![trigger repeats_at(base, s, j)]
            {
                &&& repeats_at(base, s, j)
                &&& e@.item == s[j]
                &&& e@.iterator.remaining() == s.skip(j + 1)
                &&& index_set_values(e@.collected) == s.take(j)
            }
    }

    /// Stages the values in a new set, checked against this one, and appends them only when
    /// none collided; the error holds the staged set.
    fn try_extend_safe(&mut self, iter: I) -> (r: Result<
        (),
        CollectionCollision<I, IndexSet<u64>>,
    >) {
        let ghost s = iter.remaining();
        let ghost base = index_set_values(*self);
        let hint = iter.size_hint();
        let mut staged = index_set_with_capacity(hint.0);
        let res = insert_fresh(&mut staged, Some(&*self), iter);
        match res {
            Ok(()) => {
                let values = index_set_into_values(staged);
                proof {
                    assert(Seq::<u64>::empty() + s =~= s);
                    assert(values@ == s);
                }
                append_fresh(self, values);
                Ok(())
            },
            Err((rest, v)) => {
                proof {
                    let j = choose|j: int|
                        {
                            &&& repeats_at(base, s, j)
                            &&& v == s[j]
                            &&& rest.remaining() == s.skip(j + 1)
                            &&& index_set_values(staged) == Seq::<u64>::empty() + s.take(j)
                        };
                    assert(Seq::<u64>::empty() + s.take(j) =~= s.take(j));
                    assert(repeats_at(base, s, j));
                }
                Err(CollectionCollision::new(rest, staged, v))
            },
        }
    }
}

/// Adds one value, refusing a value already present.
impl TryExtendOne for IndexSet<u64> {
    type Item = u64;

    type Error = ItemCollision<u64>;

    open spec fn extend_one_ensures(
        pre: Self,
        item: u64,
        post: Self,
        r: Result<(), ItemCollision<u64>>,
    ) -> bool {
        &&& r is Ok <==> !index_set_values(pre).contains(item)
        &&& r is Ok ==> index_set_values(post) == index_set_values(pre).push(item)
        &&& r matches Err(e) ==> e.item == item && post == pre
    }

    fn try_extend_one(&mut self, item: u64) -> (r: Result<(), ItemCollision<u64>>) {
        if index_set_contains(self, item) {
            Err(ItemCollision::new(item))
        } else {
            let _ = index_set_insert(self, item);
            Ok(())
        }
    }
}

impl IntoItems for IndexSet<u64> {
    type Item = u64;

    open spec fn item_bag(&self) -> Multiset<u64> {
        index_set_values(*self).to_multiset()
    }

    open spec fn item_order(&self) -> Option<Seq<u64>> {
        Some(index_set_values(*self))
    }

    fn empty() -> (r: Self) {
        proof {
            broadcast use vstd::seq_lib::group_to_multiset_ensures;
        }
        index_set_with_capacity(0)
    }

    fn into_items(self) -> (r: Vec<u64>) {
        index_set_into_values(self)
    }
}

impl ItemCount for IndexSet<u64> {
    fn item_count(&self) -> (r: usize) {
        proof {
            broadcast use vstd::seq_lib::group_to_multiset_ensures;
        }
        index_set_len(self)
    }
}

/// The first `j` values of `s`, value `j` and the values after it are, in that order, `s`; the
/// same reordered with value `j` first have the multiset of `s`.
proof fn lemma_split_values(s: Seq<u64>, j: int)
    requires
        0 <= j < s.len(),
    ensures
        s.take(j) + seq![s[j]] + s.skip(j + 1) == s,
        (seq![s[j]] + s.take(j) + s.skip(j + 1)).to_multiset() =~= s.to_multiset(),
{
    let a = seq![s[j]];
    let b = s.take(j);
    let c = s.skip(j + 1);
    assert(b + a + c =~= s);
    vstd::seq_lib::lemma_multiset_commutative(a, b);
    vstd::seq_lib::lemma_multiset_commutative(b, a);
    vstd::seq_lib::lemma_multiset_commutative(a + b, c);
    vstd::seq_lib::lemma_multiset_commutative(b + a, c);
}

/// Collecting an index set loses no value: when it fails, the repeated value, the values
/// collected and the values left in the iterator are exactly the values of the iterator up to
/// reordering, and the values collected come in the iterator's order.
pub proof fn law_index_set_collect_loses_nothing<I: ItemIterator<Item = u64>>(
    iter: I,
    e: CollectionCollision<I, IndexSet<u64>>,
)
    requires
        <IndexSet<u64> as TryFromIterator<I>>::from_iter_ensures(iter, Err(e)),
    ensures
        index_set_values(e@.collected) + seq![e@.item] + e@.iterator.remaining()
            == iter.remaining(),
        (seq![e@.item] + index_set_values(e@.collected) + e@.iterator.remaining()).to_multiset()
            =~= iter.remaining().to_multiset(),
{
    let s = iter.remaining();
    let j = choose|j: int|
        #![trigger repeats_at(Seq::<u64>::empty(), s, j)]
        {
            &&& repeats_at(Seq::<u64>::empty(), s, j)
            &&& e@.item == s[j]
            &&& e@.iterator.remaining() == s.skip(j + 1)
            &&& index_set_values(e@.collected) == s.take(j)
        };
    lemma_split_values(s, j);
}

/// Extending an index set all at once loses no value: when it fails, the values staged, the repeated value and the values left in the iterator are, in that
/// order, exactly the values of the iterator.
pub proof fn law_index_set_extend_safe_loses_nothing<I: ItemIterator<Item = u64>>(
    pre: IndexSet<u64>,
    iter: I,
    post: IndexSet<u64>,
    e: CollectionCollision<I, IndexSet<u64>>,
)
    requires
        <IndexSet<u64> as TryExtendSafe<I>>::extend_safe_ensures(pre, iter, post, Err(e)),
    ensures
        index_set_values(e@.collected) + seq![e@.item] + e@.iterator.remaining()
            == iter.remaining(),
{
    let s = iter.remaining();
    let base = index_set_values(pre);
    let j = choose|j: int|
        #![trigger repeats_at(base, s, j)]
        {
            &&& repeats_at(base, s, j)
            &&& e@.item == s[j]
            &&& e@.iterator.remaining() == s.skip(j + 1)
            &&& index_set_values(e@.collected) == s.take(j)
        };
    lemma_split_values(s, j);
}

/// Extending an index set value by value loses no value: when it fails, the set holds what it
/// held followed by the values added, and those, the repeated value and the values left in the
/// iterator are, in that order, exactly the values of the iterator.
pub proof fn law_index_set_extend_loses_nothing<I: ItemIterator<Item = u64>>(
    pre: IndexSet<u64>,
    iter: I,
    post: IndexSet<u64>,
    e: CollectionCollision<I, IndexSet<u64>>,
)
    requires
        <IndexSet<u64> as TryExtend<I>>::extend_ensures(pre, iter, post, Err(e)),
    ensures
        index_set_values(post).subrange(0, index_set_values(pre).len() as int) == index_set_values(
            pre,
        ),
        index_set_values(post).subrange(
            index_set_values(pre).len() as int,
            index_set_values(post).len() as int,
        ) + seq![e@.item] + e@.iterator.remaining() == iter.remaining(),
{
    let s = iter.remaining();
    let base = index_set_values(pre);
    let j = choose|j: int|
        #![trigger repeats_at(base, s, j)]
        {
            &&& repeats_at(base, s, j)
            &&& e@.item == s[j]
            &&& e@.iterator.remaining() == s.skip(j + 1)
            &&& index_set_values(e@.collected) == Seq::<u64>::empty()
            &&& index_set_values(post) == base + s.take(j)
        };
    let v = index_set_values(post);
    assert(v.subrange(0, base.len() as int) =~= base);
    assert(v.subrange(base.len() as int, v.len() as int) =~= s.take(j));
    lemma_split_values(s, j);
}

/// Extending an index set value by value and all at once agree: both succeed on the same
/// inputs, with the same values in the same order.
pub proof fn law_index_set_extend_paths_agree<I: ItemIterator<Item = u64>>(
    pre: IndexSet<u64>,
    iter: I,
    post_basic: IndexSet<u64>,
    r_basic: Result<(), CollectionCollision<I, IndexSet<u64>>>,
    post_safe: IndexSet<u64>,
    r_safe: Result<(), CollectionCollision<I, IndexSet<u64>>>,
)
    requires
        <IndexSet<u64> as TryExtend<I>>::extend_ensures(pre, iter, post_basic, r_basic),
        <IndexSet<u64> as TryExtendSafe<I>>::extend_safe_ensures(pre, iter, post_safe, r_safe),
    ensures
        r_basic is Ok <==> r_safe is Ok,
        r_basic is Ok ==> index_set_values(post_basic) == index_set_values(post_safe),
{
}

} // verus!
