use vstd::prelude::*;

use crate::errors::ErrorItemProvider;
use crate::size_hint::SizeHint;

verus! {

/// The specific way the number of items conflicts with a capacity.
#[derive(Debug, PartialEq, Eq)]
pub enum CapacityErrorKind<T> {
    /// The iterator's reported bounds cannot meet the capacity.
    Bounds {
        /// The iterator's reported bounds.
        hint: SizeHint,
    },
    /// The iterator produced fewer items than the capacity requires.
    Underflow {
        /// The number of items produced.
        count: usize,
    },
    /// The iterator produced more items than the capacity allows.
    Overflow {
        /// The first item that did not fit.
        rejected: T,
    },
}

/// An error indicating that a collection operation could not proceed because the number of
/// items an iterator produced violated the collection's capacity.
///
/// For collection, `capacity` is the capacity of the collection being built; for extension, it
/// is the capacity left in the target collection after the failure.
#[derive(Debug, PartialEq, Eq)]
pub struct CapacityError<T> {
    /// The capacity that was violated.
    pub capacity: SizeHint,
    /// How it was violated.
    pub kind: CapacityErrorKind<T>,
}

impl<T> CapacityError<T> {
    /// Creates a `Bounds` error: the reported bounds `hint` cannot meet `capacity`.
    pub fn bounds(capacity: SizeHint, hint: SizeHint) -> (r: Self)
        ensures
            r.capacity == capacity,
            r.kind == (CapacityErrorKind::<T>::Bounds { hint }),
    {
        CapacityError { capacity, kind: CapacityErrorKind::Bounds { hint } }
    }

    /// Creates an `Overflow` error: `rejected` did not fit into `capacity`.
    pub fn overflow(capacity: SizeHint, rejected: T) -> (r: Self)
        ensures
            r.capacity == capacity,
            r.kind == (CapacityErrorKind::Overflow { rejected }),
    {
        CapacityError { capacity, kind: CapacityErrorKind::Overflow { rejected } }
    }

    /// Creates an `Overflow` error for a collection left full: `rejected` did not fit, and no
    /// capacity remains.
    pub fn overflowed(rejected: T) -> (r: Self)
        ensures
            r.capacity@ == (0usize, Some(0usize)),
            r.kind == (CapacityErrorKind::Overflow { rejected }),
    {
        CapacityError { capacity: SizeHint::zero(), kind: CapacityErrorKind::Overflow { rejected } }
    }

    /// Creates an `Underflow` error: `count` items were produced, fewer than `capacity`
    /// requires.
    pub fn underflow(capacity: SizeHint, count: usize) -> (r: Self)
        ensures
            r.capacity == capacity,
            r.kind == (CapacityErrorKind::<T>::Underflow { count }),
    {
        CapacityError { capacity, kind: CapacityErrorKind::Underflow { count } }
    }
}

impl<T> ErrorItemProvider for CapacityError<T> {
    type Item = T;

    open spec fn rejected(&self) -> Option<T> {
        match self.kind {
            CapacityErrorKind::Overflow { rejected } => Some(rejected),
            _ => None,
        }
    }

    fn into_item(self) -> (r: Option<T>) {
        match self.kind {
            CapacityErrorKind::Overflow { rejected } => Some(rejected),
            _ => None,
        }
    }

    fn item(&self) -> (r: Option<&T>) {
        match &self.kind {
            CapacityErrorKind::Overflow { rejected } => Some(rejected),
            _ => None,
        }
    }
}

} // verus!
