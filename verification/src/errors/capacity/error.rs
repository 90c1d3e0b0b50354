use vstd::prelude::*;

use crate::errors::capacity::traits::FixedCap;
use crate::errors::ErrorItemProvider;
use crate::iter::ItemIterator;
use crate::size_hint::{hints_overlap, valid_hint, SizeHint};

verus! {

/// The specific way the number of items conflicts with a capacity.
#[derive(Debug, PartialEq, Eq)]
pub enum CapacityErrorKind<T> {
    /// The iterator's reported bounds cannot meet the capacity.
    Bounds {
        /// The iterator's reported bounds.
        hint: SizeHint,
    },
    /// The iterator produced fewer items than the capacity requires.
    Underflow {
        /// The number of items produced.
        count: usize,
    },
    /// The iterator produced more items than the capacity allows.
    Overflow {
        /// The first item that did not fit.
        overflow: T,
    },
}

/// An error indicating that a collection or extension failed because the number of items an
/// iterator produced conflicts with the capacity of the collection.
#[derive(Debug, PartialEq, Eq)]
pub struct CapacityError<T> {
    /// The capacity that was violated.
    pub capacity: SizeHint,
    /// How it was violated.
    pub kind: CapacityErrorKind<T>,
}

impl<T> CapacityError<T> {
    /// Creates a `Bounds` error: the reported bounds `hint` cannot meet `capacity`. The two
    /// ranges must be disjoint.
    pub fn bounds(capacity: SizeHint, hint: SizeHint) -> (r: Self)
        requires
            !hints_overlap(capacity@, hint@),
        ensures
            r.capacity == capacity,
            r.kind == (CapacityErrorKind::<T>::Bounds { hint }),
    {
        CapacityError { capacity, kind: CapacityErrorKind::Bounds { hint } }
    }

    /// Checks that the bounds `iter` reports overlap `capacity`, returning a `Bounds` error when
    /// they are disjoint. The reported bounds must be valid.
    pub fn ensure_fits<I: ItemIterator<Item = T>>(iter: &I, capacity: SizeHint) -> (r: Result<
        (),
        Self,
    >)
        requires
            valid_hint(iter.hint()),
        ensures
            r is Ok <==> hints_overlap(iter.hint(), capacity@),
            r matches Err(e) ==> (e.capacity == capacity && (e.kind matches CapacityErrorKind::Bounds {
                hint,
            } && hint@ == iter.hint())),
    {
        let raw = iter.size_hint();
        let hint = SizeHint::new(raw.0, raw.1);
        if hint.disjoint(capacity) {
            Err(CapacityError { capacity, kind: CapacityErrorKind::Bounds { hint } })
        } else {
            Ok(())
        }
    }

    /// Creates an `Overflow` error: `overflow` did not fit into `capacity`, which must have an
    /// upper bound.
    pub fn overflow(capacity: SizeHint, overflow: T) -> (r: Self)
        requires
            capacity@.1 is Some,
        ensures
            r.capacity == capacity,
            r.kind == (CapacityErrorKind::Overflow { overflow }),
    {
        CapacityError { capacity, kind: CapacityErrorKind::Overflow { overflow } }
    }

    /// Creates an `Underflow` error: `count` items were produced, fewer than the lower bound of
    /// `capacity`.
    pub fn underflow(capacity: SizeHint, count: usize) -> (r: Self)
        requires
            count < capacity@.0,
        ensures
            r.capacity == capacity,
            r.kind == (CapacityErrorKind::<T>::Underflow { count }),
    {
        CapacityError { capacity, kind: CapacityErrorKind::Underflow { count } }
    }

    /// Creates an `Underflow` error against the fixed capacity of `C`.
    pub fn underflow_of<C: FixedCap>(count: usize) -> (r: Self)
        requires
            count < C::cap_hint().0,
        ensures
            r.capacity@ == C::cap_hint(),
            r.kind == (CapacityErrorKind::<T>::Underflow { count }),
    {
        Self::underflow(C::cap(), count)
    }
}

impl<T> ErrorItemProvider for CapacityError<T> {
    type Item = T;

    open spec fn rejected(&self) -> Option<T> {
        match self.kind {
            CapacityErrorKind::Overflow { overflow } => Some(overflow),
            _ => None,
        }
    }

    fn into_item(self) -> (r: Option<T>) {
        match self.kind {
            CapacityErrorKind::Overflow { overflow } => Some(overflow),
            _ => None,
        }
    }

    fn item(&self) -> (r: Option<&T>) {
        match &self.kind {
            CapacityErrorKind::Overflow { overflow } => Some(overflow),
            _ => None,
        }
    }
}

} // verus!
