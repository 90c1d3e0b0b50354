use vstd::prelude::*;

use crate::errors::capacity::error::{CapacityError, CapacityErrorKind};
use crate::errors::capacity::traits::{DefaultValue, FixedCap, RemainingCap};
use crate::errors::CollectError;
use crate::iter::{ItemCount, ItemIterator};
use crate::size_hint::{hints_overlap, valid_hint, SizeHint};

verus! {

/// Specialization of [`CollectError`] for [`CapacityError`]: collection failed because the
/// number of items conflicts with the capacity of the collection.
impl<T, I: ItemIterator<Item = T>, C> CollectError<I, C, CapacityError<T>> {
    /// Creates a `Bounds` error for `iter`, whose reported bounds are disjoint from `cap`. No
    /// items are collected: the collected part is the starting value of `C`.
    pub fn bounds(iter: I, cap: SizeHint) -> (r: Self)
        where
            C: DefaultValue,
        requires
            valid_hint(iter.hint()),
            !hints_overlap(cap@, iter.hint()),
        ensures
            r@.remain == iter,
            r@.collected.is_default_value(),
            r@.error.capacity == cap,
            r@.error.kind matches CapacityErrorKind::Bounds { hint } && hint@ == iter.hint(),
    {
        let raw = iter.size_hint();
        let hint = SizeHint::new(raw.0, raw.1);
        Self::new(iter, C::default_value(), CapacityError::bounds(cap, hint))
    }

    /// Checks that the bounds `iter` reports overlap the fixed capacity of `Col`. Returns `iter`
    /// when they do, and a `Bounds` error holding `iter` and the starting value of `C` when they
    /// are disjoint.
    pub fn ensure_fits_in<Col: FixedCap>(iter: I) -> (r: Result<I, Self>)
        where
            C: DefaultValue,
        requires
            valid_hint(iter.hint()),
        ensures
            r is Ok <==> hints_overlap(iter.hint(), Col::cap_hint()),
            r matches Ok(i) ==> i == iter,
            r matches Err(e) ==> {
                &&& e@.remain == iter
                &&& e@.collected.is_default_value()
                &&& e@.error.capacity@ == Col::cap_hint()
                &&& e@.error.kind matches CapacityErrorKind::Bounds { hint } && hint@ == iter.hint()
            },
    {
        match CapacityError::ensure_fits(&iter, Col::cap()) {
            Err(error) => Err(Self::new(iter, C::default_value(), error)),
            Ok(()) => Ok(iter),
        }
    }

    /// Checks that the bounds `iter` reports overlap the remaining capacity of `collection`.
    /// Returns `iter` when they do, and a `Bounds` error holding `iter` and the starting value of
    /// `C` when they are disjoint.
    pub fn ensure_fits_into(iter: I, collection: &C) -> (r: Result<I, Self>)
        where
            C: RemainingCap + DefaultValue,
        requires
            valid_hint(iter.hint()),
        ensures
            r is Ok <==> hints_overlap(iter.hint(), collection.remaining_cap_hint()),
            r matches Ok(i) ==> i == iter,
            r matches Err(e) ==> {
                &&& e@.remain == iter
                &&& e@.collected.is_default_value()
                &&& e@.error.capacity@ == collection.remaining_cap_hint()
                &&& e@.error.kind matches CapacityErrorKind::Bounds { hint } && hint@ == iter.hint()
            },
    {
        match CapacityError::ensure_fits(&iter, collection.remaining_cap()) {
            Err(error) => Err(Self::new(iter, C::default_value(), error)),
            Ok(()) => Ok(iter),
        }
    }

    /// Creates an `Overflow` error: `overflow` was taken from the iterator but did not fit into
    /// `cap`, which must have an upper bound.
    pub fn overflow(remain: I, collected: C, overflow: T, cap: SizeHint) -> (r: Self)
        requires
            cap@.1 is Some,
        ensures
            r@.remain == remain,
            r@.collected == collected,
            r@.error.capacity == cap,
            r@.error.kind == (CapacityErrorKind::Overflow { overflow }),
    {
        Self::new(remain, collected, CapacityError::overflow(cap, overflow))
    }

    /// Creates an `Overflow` error against the remaining capacity of `collection`, which must
    /// have an upper bound.
    pub fn overflow_remaining_cap<Col: RemainingCap>(
        remain: I,
        collected: C,
        overflow: T,
        collection: &Col,
    ) -> (r: Self)
        requires
            collection.remaining_cap_hint().1 is Some,
        ensures
            r@.remain == remain,
            r@.collected == collected,
            r@.error.capacity@ == collection.remaining_cap_hint(),
            r@.error.kind == (CapacityErrorKind::Overflow { overflow }),
    {
        Self::overflow(remain, collected, overflow, collection.remaining_cap())
    }

    /// Creates an `Overflow` error against the fixed capacity of `Col`, which must have an upper
    /// bound.
    pub fn collect_overflow<Col: FixedCap>(iter: I, collected: C, overflow: T) -> (r: Self)
        requires
            Col::cap_hint().1 is Some,
        ensures
            r@.remain == iter,
            r@.collected == collected,
            r@.error.capacity@ == Col::cap_hint(),
            r@.error.kind == (CapacityErrorKind::Overflow { overflow }),
    {
        Self::overflow(iter, collected, overflow, Col::cap())
    }

    /// Creates an `Underflow` error: the iterator ended after the items in `collected`, fewer
    /// than the lower bound of `cap`.
    pub fn underflow(iter: I, collected: C, cap: SizeHint) -> (r: Self)
        where
            C: ItemCount,
        requires
            collected.item_bag().len() < cap@.0,
        ensures
            r@.remain == iter,
            r@.collected == collected,
            r@.error.capacity == cap,
            r@.error.kind == (CapacityErrorKind::<T>::Underflow {
                count: collected.item_bag().len() as usize,
            }),
    {
        let count = collected.item_count();
        Self::new(iter, collected, CapacityError::underflow(cap, count))
    }
}

} // verus!
