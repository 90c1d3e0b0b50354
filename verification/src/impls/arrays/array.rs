use vstd::prelude::*;

use crate::errors::capacity::{Capacity, CapacityError, CapacityErrorKind, FixedCap, RemainingCap};
use crate::errors::{option_seq, CollectError, ErrorItemProvider, ItemCountMismatch};
use crate::impls::arrays::partial_array::PartialArray;
use crate::iter::ItemIterator;
use crate::size_hint::{hints_overlap, valid_hint, SizeHint};
use crate::traits::TryFromIterator;

verus! {

impl<T, const N: usize> RemainingCap for [T; N] {
    open spec fn remaining_cap_hint(&self) -> (usize, Option<usize>) {
        (0usize, Some(0usize))
    }

    /// Always zero: an array is always full.
    fn remaining_cap(&self) -> (r: SizeHint) {
        SizeHint::zero()
    }
}

impl<T, const N: usize> FixedCap for [T; N] {
    open spec fn cap_hint() -> (usize, Option<usize>) {
        (N, Some(N))
    }

    /// Exactly `N`.
    fn cap() -> (r: SizeHint) {
        SizeHint::exact(N)
    }
}

impl<T> RemainingCap for Vec<T> {
    open spec fn remaining_cap_hint(&self) -> (usize, Option<usize>) {
        (0usize, None::<usize>)
    }

    /// Unbounded: a vector can always grow.
    fn remaining_cap(&self) -> (r: SizeHint) {
        SizeHint::unbounded(0)
    }
}

impl<T> Capacity for Vec<T> {
    open spec fn capacity_bounds(&self) -> (usize, Option<usize>) {
        (0usize, None::<usize>)
    }

    /// Any number of items: a vector can always grow.
    fn capacity_hint(&self) -> (r: SizeHint) {
        SizeHint::universal()
    }
}

impl<T> FixedCap for Vec<T> {
    open spec fn cap_hint() -> (usize, Option<usize>) {
        (0usize, None::<usize>)
    }

    /// Unbounded: a vector has no fixed capacity.
    fn cap() -> (r: SizeHint) {
        SizeHint::unbounded(0)
    }
}

/// The outcome of collecting `iter` into an array of `N` items: it succeeds exactly when the
/// reported bounds admit `N` and exactly `N` items come. Otherwise the error keeps every item
/// taken: a `Bounds` error takes none; an `Overflow` holds the first `N` items and the first
/// extra one; an `Underflow` holds all the items.
pub open spec fn array_collected<T, const N: usize, I: ItemIterator<Item = T>>(
    iter: I,
    r: Result<[T; N], CollectError<I, PartialArray<T, N>, CapacityError<T>>>,
) -> bool {
    let s = iter.remaining();
    let cap = (N, Some(N));
    &&& r is Ok <==> hints_overlap(iter.hint(), cap) && s.len() == N
    &&& r matches Ok(a) ==> a@ == s
    &&& r matches Err(e) ==> e@.error.capacity@ == cap
    &&& r matches Err(e) ==> if !hints_overlap(iter.hint(), cap) {
        &&& e@.remain == iter
        &&& e@.collected@.len() == 0
        &&& e@.error.kind matches CapacityErrorKind::Bounds { hint } && hint@ == iter.hint()
    } else if s.len() > N {
        &&& e@.collected@ == s.take(N as int)
        &&& e@.error.kind == (CapacityErrorKind::Overflow { overflow: s[N as int] })
        &&& e@.remain.remaining() == s.skip(N + 1)
    } else {
        &&& e@.collected@ == s
        &&& e@.error.kind == (CapacityErrorKind::<T>::Underflow { count: s.len() as usize })
        &&& e@.remain.remaining().len() == 0
    }
}

/// Creates an array of `N` items from an iterator, failing unless it produces exactly `N`.
impl<T, const N: usize, I: ItemIterator<Item = T>> TryFromIterator<I> for [T; N] {
    type Error = CollectError<I, PartialArray<T, N>, CapacityError<T>>;

    open spec fn from_iter_requires(iter: I) -> bool {
        valid_hint(iter.hint())
    }

    open spec fn from_iter_ensures(
        iter: I,
        r: Result<[T; N], CollectError<I, PartialArray<T, N>, CapacityError<T>>>,
    ) -> bool {
        array_collected::<T, N, I>(iter, r)
    }

    /// Checks the reported bounds against `N`, then fills a [`PartialArray`] item by item. An
    /// item beyond the `N`th is an `Overflow`; running out before `N` is an `Underflow`.
    #[verifier::loop_isolation(false)]
    fn try_from_iter(iter: I) -> (r: Result<
        [T; N],
        CollectError<I, PartialArray<T, N>, CapacityError<T>>,
    >) {
        let ghost s = iter.remaining();
        let mut iter = iter;
        let mut partial: PartialArray<T, N> = PartialArray::new();
        match CapacityError::ensure_fits(&iter, <[T; N] as FixedCap>::cap()) {
            Err(err) => {
                return Err(CollectError::new(iter, partial, err));
            },
            Ok(()) => {},
        }
        let ghost mut i: int = 0;
        loop
            invariant
                0 <= i <= s.len(),
                i <= N,
                iter.remaining() == s.skip(i),
                partial@ == s.take(i),
            decreases s.len() - i,
        {
            match iter.next() {
                Some(item) => {
                    proof {
                        assert(item == s[i]);
                        assert(iter.remaining() =~= s.skip(i + 1));
                    }
                    match partial.try_push(item) {
                        Ok(()) => {
                            proof {
                                assert(s.take(i + 1) =~= s.take(i).push(item));
                                i = i + 1;
                            }
                        },
                        Err(item) => {
                            return Err(CollectError::collect_overflow::<[T; N]>(iter, partial, item));
                        },
                    }
                },
                None => {
                    proof {
                        assert(s.take(i) =~= s);
                    }
                    return match partial.try_into_array() {
                        Ok(array) => Ok(array),
                        Err(e) => Err(CollectError::new(iter, e.partial_array, e.error)),
                    };
                },
            }
        }
    }
}

/// Fills `array`, which starts empty, with `expected` items taken from `iter` in order. Fails
/// with an [`ItemCountMismatch`] when `iter` runs out first (counting the items it gave), or
/// when an item remains after the `expected`th (counting one more than `expected`).
#[verifier::loop_isolation(false)]
pub fn try_from_iterator_erased<T, I: ItemIterator<Item = T>>(
    iter: I,
    array: &mut Vec<T>,
    expected: usize,
) -> (r: Result<(), ItemCountMismatch>)
    requires
        old(array)@.len() == 0,
        expected < usize::MAX,
    ensures
        ({
            let s = iter.remaining();
            &&& r is Ok <==> s.len() == expected
            &&& s.len() <= expected ==> final(array)@ == s
            &&& s.len() > expected ==> final(array)@ == s.take(expected as int)
            &&& r matches Err(e) ==> e.expected == expected && e.actual == if s.len() < expected {
                s.len() as usize
            } else {
                (expected + 1) as usize
            }
        }),
{
    let ghost s = iter.remaining();
    let mut iter = iter;
    let mut index: usize = 0;
    proof {
        assert(array@ =~= s.take(0));
    }
    while index < expected
        invariant
            index <= expected,
            index <= s.len(),
            array@ == s.take(index as int),
            iter.remaining() == s.skip(index as int),
        decreases expected - index,
    {
        match iter.next() {
            None => {
                proof {
                    assert(s.take(index as int) =~= s);
                }
                return Err(ItemCountMismatch::new(expected, index));
            },
            Some(value) => {
                proof {
                    assert(value == s[index as int]);
                    assert(iter.remaining() =~= s.skip(index + 1));
                }
                array.push(value);
                proof {
                    assert(s.take(index + 1) =~= s.take(index as int).push(value));
                }
                index = index + 1;
            },
        }
    }
    match iter.next() {
        None => {
            proof {
                assert(s.take(index as int) =~= s);
            }
            Ok(())
        },
        Some(_) => Err(ItemCountMismatch::new(expected, expected + 1)),
    }
}

/// Collecting an array loses no item: when it fails, the refused item, the items collected and
/// the items left in the iterator are, in that order, exactly the items of the iterator up to
/// reordering (a `Bounds` failure takes no item at all).
pub proof fn law_array_collect_loses_nothing<T, const N: usize, I: ItemIterator<Item = T>>(
    iter: I,
    e: CollectError<I, PartialArray<T, N>, CapacityError<T>>,
)
    requires
        array_collected::<T, N, I>(iter, Err(e)),
    ensures
        (option_seq(e@.error.rejected()) + e@.collected@ + e@.remain.remaining()).to_multiset()
            =~= iter.remaining().to_multiset(),
{
    broadcast use vstd::seq_lib::group_to_multiset_ensures;

    let s = iter.remaining();
    let out = option_seq(e@.error.rejected()) + e@.collected@ + e@.remain.remaining();
    if !hints_overlap(iter.hint(), (N, Some(N))) {
        assert(out =~= s);
    } else if s.len() > N {
        let a = seq![s[N as int]];
        let b = s.take(N as int);
        let c = s.skip(N + 1);
        assert(out =~= a + b + c);
        assert(s =~= b + a + c);
        vstd::seq_lib::lemma_multiset_commutative(a, b);
        vstd::seq_lib::lemma_multiset_commutative(b, a);
        vstd::seq_lib::lemma_multiset_commutative(a + b, c);
        vstd::seq_lib::lemma_multiset_commutative(b + a, c);
    } else {
        assert(out =~= s);
    }
}

} // verus!
