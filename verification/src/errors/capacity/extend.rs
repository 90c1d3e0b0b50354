use vstd::prelude::*;

use crate::errors::capacity::error::{CapacityError, CapacityErrorKind};
use crate::errors::capacity::traits::RemainingCap;
use crate::errors::ExtendError;
use crate::iter::ItemIterator;
use crate::size_hint::{hints_overlap, valid_hint, SizeHint};

verus! {

/// Specialization of [`ExtendError`] for [`CapacityError`]: extension failed because the
/// number of items conflicts with the remaining capacity of the collection.
impl<T, I: ItemIterator<Item = T>> ExtendError<I, CapacityError<T>> {
    /// Creates a `Bounds` error for `iter`, whose reported bounds are disjoint from `cap`.
    pub fn bounds(iter: I, cap: SizeHint) -> (r: Self)
        requires
            valid_hint(iter.hint()),
            !hints_overlap(cap@, iter.hint()),
        ensures
            r@.remain == iter,
            r@.error.capacity == cap,
            r@.error.kind matches CapacityErrorKind::Bounds { hint } && hint@ == iter.hint(),
    {
        let raw = iter.size_hint();
        let hint = SizeHint::new(raw.0, raw.1);
        Self::new(iter, CapacityError::bounds(cap, hint))
    }

    /// Checks that the bounds `iter` reports overlap the remaining capacity of `collection`.
    /// Returns `iter` when they do, and a `Bounds` error holding `iter` when they are disjoint.
    pub fn ensure_fits_into<C: RemainingCap>(iter: I, collection: &C) -> (r: Result<I, Self>)
        requires
            valid_hint(iter.hint()),
        ensures
            r is Ok <==> hints_overlap(iter.hint(), collection.remaining_cap_hint()),
            r matches Ok(i) ==> i == iter,
            r matches Err(e) ==> {
                &&& e@.remain == iter
                &&& e@.error.capacity@ == collection.remaining_cap_hint()
                &&& e@.error.kind matches CapacityErrorKind::Bounds { hint } && hint@ == iter.hint()
            },
    {
        match CapacityError::ensure_fits(&iter, collection.remaining_cap()) {
            Ok(()) => Ok(iter),
            Err(error) => Err(Self::new(iter, error)),
        }
    }

    /// Creates an `Overflow` error for a collection left full: `overflow` did not fit, and no
    /// capacity remains.
    pub fn overflow(iter: I, overflow: T) -> (r: Self)
        ensures
            r@.remain == iter,
            r@.error.capacity@ == (0usize, Some(0usize)),
            r@.error.kind == (CapacityErrorKind::Overflow { overflow }),
    {
        Self::new(iter, CapacityError::overflow(SizeHint::zero(), overflow))
    }

    /// Creates an `Overflow` error against the remaining capacity of `collection`, which must
    /// have an upper bound.
    pub fn overflow_remaining_cap<C: RemainingCap>(iter: I, overflow: T, collection: &C) -> (r:
        Self)
        requires
            collection.remaining_cap_hint().1 is Some,
        ensures
            r@.remain == iter,
            r@.error.capacity@ == collection.remaining_cap_hint(),
            r@.error.kind == (CapacityErrorKind::Overflow { overflow }),
    {
        Self::new(iter, CapacityError::overflow(collection.remaining_cap(), overflow))
    }
}

} // verus!
