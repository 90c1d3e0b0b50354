//! A vector with a fixed capacity of `CAP` items, built and extended failably.

use vstd::multiset::Multiset;
use vstd::prelude::*;

use crate::errors::capacity::{
    CapacityError, CapacityErrorKind, DefaultValue, FixedCap, RemainingCap,
};
use crate::errors::{option_seq, CollectError, ErrorItemProvider, ExtendError};
use crate::impls::ensure_empty::{EnsureEmpty, NotEmpty};
use crate::iter::{IntoItems, ItemCount, ItemIterator};
use crate::size_hint::{hints_overlap, valid_hint, SizeHint};
use crate::traits::{TryExtend, TryExtendOne, TryExtendSafe, TryFromIterator};

verus! {

/// A vector that holds at most `CAP` items, in order.
#[derive(Debug)]
pub struct ArrayVec<T, const CAP: usize> {
    items: Vec<T>,
}

impl<T, const CAP: usize> View for ArrayVec<T, CAP> {
    type V = Seq<T>;

    closed spec fn view(&self) -> Seq<T> {
        self.items@
    }
}

impl<T, const CAP: usize> ArrayVec<T, CAP> {
    /// An array vector holds at most `CAP` items.
    #[verifier::type_invariant]
    spec fn within_capacity(&self) -> bool {
        self.items@.len() <= CAP
    }

    /// An empty array vector.
    pub fn new() -> (r: Self)
        ensures
            r@ == Seq::<T>::empty(),
    {
        ArrayVec { items: Vec::new() }
    }

    /// The number of items held.
    pub fn len(&self) -> (r: usize)
        ensures
            r == self@.len(),
            r <= CAP,
    {
        proof {
            use_type_invariant(self);
        }
        self.items.len()
    }

    /// Whether no item is held.
    pub fn is_empty(&self) -> (r: bool)
        ensures
            r == (self@.len() == 0),
    {
        self.items.len() == 0
    }

    /// The number of items it can hold.
    pub fn capacity(&self) -> (r: usize)
        ensures
            r == CAP,
    {
        CAP
    }

    /// The number of items it can still take.
    pub fn remaining_capacity(&self) -> (r: usize)
        ensures
            r == CAP - self@.len(),
    {
        proof {
            use_type_invariant(self);
        }
        CAP - self.items.len()
    }

    /// Appends `item`, or returns it when `CAP` items are already held.
    pub fn try_push(&mut self, item: T) -> (r: Result<(), T>)
        ensures
            r is Ok <==> old(self)@.len() < CAP,
            r is Ok ==> final(self)@ == old(self)@.push(item),
            r matches Err(x) ==> x == item && *final(self) == *old(self),
    {
        proof {
            use_type_invariant(&*self);
        }
        if self.items.len() >= CAP {
            Err(item)
        } else {
            let mut items = Vec::new();
            std::mem::swap(&mut items, &mut self.items);
            items.push(item);
            self.items = items;
            Ok(())
        }
    }

    /// The items held, in order.
    pub fn as_slice(&self) -> (r: &[T])
        ensures
            r@ == self@,
    {
        self.items.as_slice()
    }

    /// Consumes the array vector, returning its items in order.
    pub fn into_vec(self) -> (r: Vec<T>)
        ensures
            r@ == self@,
    {
        self.items
    }

    /// Appends `more`, which fits in the remaining capacity.
    fn append_fitting(&mut self, more: Vec<T>)
        requires
            old(self)@.len() + more@.len() <= CAP,
        ensures
            final(self)@ == old(self)@ + more@,
    {
        let mut more = more;
        let mut items = Vec::new();
        std::mem::swap(&mut items, &mut self.items);
        items.append(&mut more);
        self.items = items;
    }
}

impl<T, const CAP: usize> std::ops::Deref for ArrayVec<T, CAP> {
    type Target = [T];

    fn deref(&self) -> (r: &[T])
        ensures
            r@ == self@,
    {
        self.items.as_slice()
    }
}

impl<T, const CAP: usize> RemainingCap for ArrayVec<T, CAP> {
    open spec fn remaining_cap_hint(&self) -> (usize, Option<usize>) {
        (0usize, Some((CAP - self@.len()) as usize))
    }

    /// At most the remaining capacity.
    fn remaining_cap(&self) -> (r: SizeHint) {
        SizeHint::at_most(self.remaining_capacity())
    }
}

impl<T, const CAP: usize> FixedCap for ArrayVec<T, CAP> {
    open spec fn cap_hint() -> (usize, Option<usize>) {
        (0usize, Some(CAP))
    }

    /// At most `CAP`.
    fn cap() -> (r: SizeHint) {
        SizeHint::at_most(CAP)
    }
}

/// An empty one.
impl<T, const CAP: usize> DefaultValue for ArrayVec<T, CAP> {
    open spec fn is_default_value(&self) -> bool {
        self@.len() == 0
    }

    fn default_value() -> (r: Self) {
        Self::new()
    }
}

impl<T, const CAP: usize> IntoItems for ArrayVec<T, CAP> {
    type Item = T;

    open spec fn item_bag(&self) -> Multiset<T> {
        self@.to_multiset()
    }

    open spec fn item_order(&self) -> Option<Seq<T>> {
        Some(self@)
    }

    fn empty() -> (r: Self) {
        proof {
            broadcast use vstd::seq_lib::group_to_multiset_ensures;
        }
        Self::new()
    }

    fn into_items(self) -> (r: Vec<T>) {
        self.items
    }
}

impl<T, const CAP: usize> ItemCount for ArrayVec<T, CAP> {
    fn item_count(&self) -> (r: usize) {
        proof {
            broadcast use vstd::seq_lib::group_to_multiset_ensures;
        }
        self.items.len()
    }
}

/// Takes items from `iter` into `vec` until `vec` holds `CAP` items or `iter` runs out, without
/// taking an item that would not fit.
fn fill<T, const CAP: usize, I: ItemIterator<Item = T>>(vec: &mut ArrayVec<T, CAP>, iter: &mut I)
    ensures
        ({
            let s = old(iter).remaining();
            let k = if s.len() <= CAP - old(vec)@.len() {
                s.len() as int
            } else {
                CAP - old(vec)@.len()
            };
            &&& final(vec)@ == old(vec)@ + s.take(k)
            &&& final(iter).remaining() == s.skip(k)
        }),
{
    let ghost s = iter.remaining();
    let ghost start = vec@;
    let ghost mut i: int = 0;
    proof {
        use_type_invariant(&*vec);
        assert(start + s.take(0) =~= start);
    }
    loop
        invariant
            0 <= i <= s.len(),
            start.len() + i <= CAP,
            iter.remaining() == s.skip(i),
            vec@ == start + s.take(i),
        ensures
            vec@ == start + s.take(i),
            iter.remaining() == s.skip(i),
            i == s.len() || start.len() + i == CAP,
            0 <= i <= s.len(),
        decreases s.len() - i,
    {
        if vec.remaining_capacity() == 0 {
            break;
        }
        match iter.next() {
            None => {
                proof {
                    assert(s.skip(i).len() == 0);
                }
                break;
            },
            Some(item) => {
                proof {
                    assert(item == s[i]);
                    assert(iter.remaining() =~= s.skip(i + 1));
                }
                let _ = vec.try_push(item);
                proof {
                    assert(start + s.take(i + 1) =~= (start + s.take(i)).push(item));
                    i = i + 1;
                }
            },
        }
    }
}

/// The outcome of collecting `iter` into an array vector of capacity `CAP`: it succeeds exactly
/// when the reported bounds admit at most `CAP` items and at most `CAP` come. Otherwise the
/// error keeps every item taken: a `Bounds` error takes none; an `Overflow` holds the first
/// `CAP` items and the first extra one.
pub open spec fn array_vec_collected<T, const CAP: usize, I: ItemIterator<Item = T>>(
    iter: I,
    r: Result<ArrayVec<T, CAP>, CollectError<I, ArrayVec<T, CAP>, CapacityError<T>>>,
) -> bool {
    let s = iter.remaining();
    let cap = (0usize, Some(CAP));
    &&& r is Ok <==> hints_overlap(iter.hint(), cap) && s.len() <= CAP
    &&& r matches Ok(v) ==> v@ == s
    &&& r matches Err(e) ==> e@.error.capacity@ == cap
    &&& r matches Err(e) ==> if !hints_overlap(iter.hint(), cap) {
        &&& e@.remain == iter
        &&& e@.collected@.len() == 0
        &&& e@.error.kind matches CapacityErrorKind::Bounds { hint } && hint@ == iter.hint()
    } else {
        &&& e@.collected@ == s.take(CAP as int)
        &&& e@.error.kind == (CapacityErrorKind::Overflow { overflow: s[CAP as int] })
        &&& e@.remain.remaining() == s.skip(CAP + 1)
    }
}

/// Collects an array vector, failing when the iterator produces more than `CAP` items.
impl<T, const CAP: usize, I: ItemIterator<Item = T>> TryFromIterator<I> for ArrayVec<T, CAP> {
    type Error = CollectError<I, ArrayVec<T, CAP>, CapacityError<T>>;

    open spec fn from_iter_requires(iter: I) -> bool {
        valid_hint(iter.hint())
    }

    open spec fn from_iter_ensures(
        iter: I,
        r: Result<ArrayVec<T, CAP>, CollectError<I, ArrayVec<T, CAP>, CapacityError<T>>>,
    ) -> bool {
        array_vec_collected::<T, CAP, I>(iter, r)
    }

    /// Checks the reported bounds against the capacity, takes up to `CAP` items, and fails with
    /// an `Overflow` when one more remains.
    fn try_from_iter(iter: I) -> (r: Result<
        ArrayVec<T, CAP>,
        CollectError<I, ArrayVec<T, CAP>, CapacityError<T>>,
    >) {
        let ghost s = iter.remaining();
        match CollectError::ensure_fits_in::<ArrayVec<T, CAP>>(iter) {
            Err(e) => {
                proof {
                    broadcast use vstd::seq_lib::group_to_multiset_ensures;
                }
                Err(e)
            },
            Ok(iter) => {
                let mut iter = iter;
                let mut vec: ArrayVec<T, CAP> = ArrayVec::new();
                fill(&mut vec, &mut iter);
                proof {
                    assert(Seq::<T>::empty() + s.take(s.len() as int) =~= s);
                    assert forall|k: int| 0 <= k <= s.len() implies Seq::<T>::empty() + s.take(k)
                        =~= s.take(k) by {}
                }
                proof {
                    if s.len() > CAP {
                        assert(vec@ == s.take(CAP as int));
                        assert(iter.remaining() == s.skip(CAP as int));
                    } else {
                        assert(vec@ == s);
                        assert(iter.remaining().len() == 0);
                    }
                }
                match iter.ensure_empty() {
                    Ok(()) => Ok(vec),
                    Err(NotEmpty { iter, item }) => {
                        proof {
                            assert(s.skip(CAP as int).drop_first() =~= s.skip(CAP + 1));
                        }
                        Err(CollectError::collect_overflow::<ArrayVec<T, CAP>>(iter, vec, item))
                    },
                }
            },
        }
    }
}

/// Appends items one at a time, failing with an `Overflow` when the array vector is full.
impl<T, const CAP: usize> TryExtendOne for ArrayVec<T, CAP> {
    type Item = T;

    type Error = CapacityError<T>;

    open spec fn extend_one_ensures(
        pre: Self,
        item: T,
        post: Self,
        r: Result<(), CapacityError<T>>,
    ) -> bool {
        &&& r is Ok <==> pre@.len() < CAP
        &&& r is Ok ==> post@ == pre@.push(item)
        &&& r matches Err(e) ==> {
            &&& post == pre
            &&& e.capacity@ == (0usize, Some(0usize))
            &&& e.kind == (CapacityErrorKind::Overflow { overflow: item })
        }
    }

    /// Pushes `item`; when the array vector is full, the error holds `item` against a remaining
    /// capacity of zero.
    fn try_extend_one(&mut self, item: T) -> (r: Result<(), CapacityError<T>>) {
        match self.try_push(item) {
            Ok(()) => Ok(()),
            Err(item) => Err(CapacityError::overflow(SizeHint::zero(), item)),
        }
    }
}

/// The outcome of extending `pre`, with `rem` free slots, by `iter`: it succeeds exactly when
/// the reported bounds admit at most `rem` items and at most `rem` come.
pub open spec fn array_vec_fits<T, const CAP: usize, I: ItemIterator<Item = T>>(
    pre: ArrayVec<T, CAP>,
    iter: I,
) -> bool {
    &&& hints_overlap(iter.hint(), (0usize, Some((CAP - pre@.len()) as usize)))
    &&& iter.remaining().len() <= CAP - pre@.len()
}

/// Extends an array vector, failing when the iterator produces more items than fit; the items
/// that fit stay.
impl<T, const CAP: usize, I: ItemIterator<Item = T>> TryExtend<I> for ArrayVec<T, CAP> {
    type Error = ExtendError<I, CapacityError<T>>;

    open spec fn extend_requires(pre: Self, iter: I) -> bool {
        valid_hint(iter.hint())
    }

    open spec fn extend_ensures(
        pre: Self,
        iter: I,
        post: Self,
        r: Result<(), ExtendError<I, CapacityError<T>>>,
    ) -> bool {
        let s = iter.remaining();
        let rem = CAP - pre@.len();
        &&& r is Ok <==> array_vec_fits::<T, CAP, I>(pre, iter)
        &&& r is Ok ==> post@ == pre@ + s
        &&& r matches Err(e) ==> if !hints_overlap(iter.hint(), (0usize, Some(rem as usize))) {
            &&& post == pre
            &&& e@.remain == iter
            &&& e@.error.capacity@ == (0usize, Some(rem as usize))
            &&& e@.error.kind matches CapacityErrorKind::Bounds { hint } && hint@ == iter.hint()
        } else {
            &&& post@ == pre@ + s.take(rem)
            &&& e@.remain.remaining() == s.skip(rem + 1)
            &&& e@.error.capacity@ == (0usize, Some(0usize))
            &&& e@.error.kind == (CapacityErrorKind::Overflow { overflow: s[rem] })
        }
    }

    /// Checks the reported bounds against the remaining capacity, then pushes the items one at
    /// a time until one does not fit.
    #[verifier::loop_isolation(false)]
    fn try_extend(&mut self, iter: I) -> (r: Result<(), ExtendError<I, CapacityError<T>>>) {
        let ghost s = iter.remaining();
        let ghost pre = *self;
        proof {
            use_type_invariant(&*self);
        }
        match ExtendError::ensure_fits_into(iter, self) {
            Err(e) => Err(e),
            Ok(iter) => {
                let mut iter = iter;
                fill(self, &mut iter);
                let ghost rem = CAP - pre@.len();
                match iter.next() {
                    None => {
                        proof {
                            assert(s.take(s.len() as int) =~= s);
                        }
                        Ok(())
                    },
                    Some(item) => {
                        proof {
                            assert(s.skip(rem).drop_first() =~= s.skip(rem + 1));
                        }
                        let err = self.try_extend_one(item);
                        match err {
                            Ok(()) => {
                                proof {
                                    assert(false);
                                }
                                vstd::pervasive::unreached()
                            },
                            Err(e) => Err(ExtendError::new(iter, e)),
                        }
                    },
                }
            },
        }
    }
}

/// Extends an array vector all at once, leaving it unchanged when the items do not fit.
impl<T, const CAP: usize, I: ItemIterator<Item = T>> TryExtendSafe<I> for ArrayVec<T, CAP> {
    type Error = CollectError<I, ArrayVec<T, CAP>, CapacityError<T>>;

    open spec fn extend_safe_ensures(
        pre: Self,
        iter: I,
        post: Self,
        r: Result<(), CollectError<I, ArrayVec<T, CAP>, CapacityError<T>>>,
    ) -> bool {
        let s = iter.remaining();
        let rem = CAP - pre@.len();
        &&& r is Ok <==> array_vec_fits::<T, CAP, I>(pre, iter)
        &&& r is Ok ==> post@ == pre@ + s
        &&& r is Err ==> post == pre
        &&& r matches Err(e) ==> e@.error.capacity@ == (0usize, Some(rem as usize))
        &&& r matches Err(e) ==> if !hints_overlap(iter.hint(), (0usize, Some(rem as usize))) {
            &&& e@.remain == iter
            &&& e@.collected@.len() == 0
            &&& e@.error.kind matches CapacityErrorKind::Bounds { hint } && hint@ == iter.hint()
        } else {
            &&& e@.collected@ == s.take(rem)
            &&& e@.remain.remaining() == s.skip(rem + 1)
            &&& e@.error.kind == (CapacityErrorKind::Overflow { overflow: s[rem] })
        }
    }

    /// Checks the reported bounds against the remaining capacity, stages up to that many items,
    /// and appends them only when no item is left over; otherwise the error holds the staged
    /// items and the first that did not fit.
    fn try_extend_safe(&mut self, iter: I) -> (r: Result<
        (),
        CollectError<I, ArrayVec<T, CAP>, CapacityError<T>>,
    >) {
        let ghost s = iter.remaining();
        proof {
            use_type_invariant(&*self);
        }
        let cap = self.remaining_cap();
        let rem = self.remaining_capacity();
        match CollectError::ensure_fits_into(iter, self) {
            Err(e) => {
                proof {
                    broadcast use vstd::seq_lib::group_to_multiset_ensures;
                }
                Err(e)
            },
            Ok(iter) => {
                let mut iter = iter;
                let mut staged: Vec<T> = Vec::new();
                let ghost mut i: int = 0;
                proof {
                    assert(s.take(0) =~= Seq::<T>::empty());
                }
                while staged.len() < rem
                    invariant
                        0 <= i <= s.len(),
                        staged@ == s.take(i),
                        staged@.len() <= rem,
                        iter.remaining() == s.skip(i),
                    ensures
                        0 <= i <= s.len(),
                        staged@ == s.take(i),
                        iter.remaining() == s.skip(i),
                        staged@.len() == rem || i == s.len(),
                    decreases s.len() - i,
                {
                    match iter.next() {
                        None => {
                            break;
                        },
                        Some(item) => {
                            proof {
                                assert(item == s[i]);
                                assert(iter.remaining() =~= s.skip(i + 1));
                            }
                            staged.push(item);
                            proof {
                                assert(s.take(i + 1) =~= s.take(i).push(item));
                                i = i + 1;
                            }
                        },
                    }
                }
                let ghost left = iter.remaining();
                match iter.next() {
                    None => {
                        proof {
                            assert(s.take(s.len() as int) =~= s);
                        }
                        self.append_fitting(staged);
                        Ok(())
                    },
                    Some(item) => {
                        proof {
                            assert(staged@.len() == rem);
                            assert(s.skip(rem as int).drop_first() =~= s.skip(rem + 1));
                        }
                        let mut collected: ArrayVec<T, CAP> = ArrayVec::new();
                        collected.append_fitting(staged);
                        Err(CollectError::overflow(iter, collected, item, cap))
                    },
                }
            },
        }
    }
}

/// Collecting an array vector loses no item: when it fails, the refused item, the items
/// collected and the items left in the iterator are exactly the items of the iterator up to
/// reordering (a `Bounds` failure takes no item at all).
pub proof fn law_array_vec_collect_loses_nothing<T, const CAP: usize, I: ItemIterator<Item = T>>(
    iter: I,
    e: CollectError<I, ArrayVec<T, CAP>, CapacityError<T>>,
)
    requires
        array_vec_collected::<T, CAP, I>(iter, Err(e)),
    ensures
        (option_seq(e@.error.rejected()) + e@.collected@ + e@.remain.remaining()).to_multiset()
            =~= iter.remaining().to_multiset(),
{
    broadcast use vstd::seq_lib::group_to_multiset_ensures;

    let s = iter.remaining();
    let out = option_seq(e@.error.rejected()) + e@.collected@ + e@.remain.remaining();
    if !hints_overlap(iter.hint(), (0usize, Some(CAP))) {
        assert(out =~= s);
    } else {
        let a = seq![s[CAP as int]];
        let b = s.take(CAP as int);
        let c = s.skip(CAP + 1);
        assert(out =~= a + b + c);
        assert(s =~= b + a + c);
        vstd::seq_lib::lemma_multiset_commutative(a, b);
        vstd::seq_lib::lemma_multiset_commutative(b, a);
        vstd::seq_lib::lemma_multiset_commutative(a + b, c);
        vstd::seq_lib::lemma_multiset_commutative(b + a, c);
    }
}

/// Extending an array vector item by item loses no item: when it fails, the items added, then
/// the refused item, then the items left in the iterator are exactly the items of the iterator.
pub proof fn law_array_vec_extend_loses_nothing<T, const CAP: usize, I: ItemIterator<Item = T>>(
    pre: ArrayVec<T, CAP>,
    iter: I,
    post: ArrayVec<T, CAP>,
    e: ExtendError<I, CapacityError<T>>,
)
    requires
        pre@.len() <= CAP,
        <ArrayVec<T, CAP> as TryExtend<I>>::extend_ensures(pre, iter, post, Err(e)),
    ensures
        post@.subrange(0, pre@.len() as int) == pre@,
        post@.subrange(pre@.len() as int, post@.len() as int) + option_seq(e@.error.rejected())
            + e@.remain.remaining() == iter.remaining(),
{
    let s = iter.remaining();
    let rem = CAP - pre@.len();
    assert(post@.subrange(0, pre@.len() as int) =~= pre@);
    if !hints_overlap(iter.hint(), (0usize, Some(rem as usize))) {
        assert(post@.subrange(pre@.len() as int, post@.len() as int) + option_seq(
            e@.error.rejected(),
        ) + e@.remain.remaining() =~= s);
    } else {
        assert(post@.subrange(pre@.len() as int, post@.len() as int) =~= s.take(rem));
        assert(s.take(rem) + seq![s[rem]] + s.skip(rem + 1) =~= s);
    }
}

/// Extending an array vector all at once loses no item: when it fails, the array vector is
/// unchanged, and the refused item, the items staged and the items left in the iterator are
/// exactly the items of the iterator up to reordering.
pub proof fn law_array_vec_extend_safe_loses_nothing<
    T,
    const CAP: usize,
    I: ItemIterator<Item = T>,
>(
    pre: ArrayVec<T, CAP>,
    iter: I,
    post: ArrayVec<T, CAP>,
    e: CollectError<I, ArrayVec<T, CAP>, CapacityError<T>>,
)
    requires
        pre@.len() <= CAP,
        <ArrayVec<T, CAP> as TryExtendSafe<I>>::extend_safe_ensures(pre, iter, post, Err(e)),
    ensures
        post == pre,
        (option_seq(e@.error.rejected()) + e@.collected@ + e@.remain.remaining()).to_multiset()
            =~= iter.remaining().to_multiset(),
{
    broadcast use vstd::seq_lib::group_to_multiset_ensures;

    let s = iter.remaining();
    let rem = CAP - pre@.len();
    let out = option_seq(e@.error.rejected()) + e@.collected@ + e@.remain.remaining();
    if !hints_overlap(iter.hint(), (0usize, Some(rem as usize))) {
        assert(out =~= s);
    } else {
        let a = seq![s[rem]];
        let b = s.take(rem);
        let c = s.skip(rem + 1);
        assert(out =~= a + b + c);
        assert(s =~= b + a + c);
        vstd::seq_lib::lemma_multiset_commutative(a, b);
        vstd::seq_lib::lemma_multiset_commutative(b, a);
        vstd::seq_lib::lemma_multiset_commutative(a + b, c);
        vstd::seq_lib::lemma_multiset_commutative(b + a, c);
    }
}

/// Extending an array vector item by item and all at once agree: both succeed on the same
/// inputs, with the same items; and a failed extension all at once leaves it as it was.
pub proof fn law_array_vec_extend_paths_agree<T, const CAP: usize, I: ItemIterator<Item = T>>(
    pre: ArrayVec<T, CAP>,
    iter: I,
    post_basic: ArrayVec<T, CAP>,
    r_basic: Result<(), ExtendError<I, CapacityError<T>>>,
    post_safe: ArrayVec<T, CAP>,
    r_safe: Result<(), CollectError<I, ArrayVec<T, CAP>, CapacityError<T>>>,
)
    requires
        <ArrayVec<T, CAP> as TryExtend<I>>::extend_ensures(pre, iter, post_basic, r_basic),
        <ArrayVec<T, CAP> as TryExtendSafe<I>>::extend_safe_ensures(pre, iter, post_safe, r_safe),
    ensures
        r_basic is Ok <==> r_safe is Ok,
        r_basic is Ok ==> post_basic@ == post_safe@,
        r_safe is Err ==> post_safe == pre,
{
}

} // verus!
