use vstd::prelude::*;

use crate::size_hint::SizeHint;

verus! {

/// The specific way a capacity was violated.
#[derive(Debug, PartialEq, Eq)]
pub enum MismatchKind {
    /// The item bounds cannot fit within the capacity.
    Bounds(SizeHint),
    /// The iterator produced fewer items than the capacity requires.
    Underflow {
        /// The number of items produced.
        count: usize,
    },
    /// The iterator produced more items than the capacity allows.
    Overflow,
}

/// An error indicating that a collection was not created because its capacity was violated.
#[derive(Debug, PartialEq, Eq)]
pub struct CapacityMismatch {
    /// The allowed capacity.
    pub capacity: SizeHint,
    /// How it was violated.
    pub kind: MismatchKind,
}

impl CapacityMismatch {
    /// Creates a `Bounds` error: the bounds `hint` do not fit within `capacity`.
    pub fn bounds(capacity: SizeHint, hint: SizeHint) -> (r: Self)
        ensures
            r.capacity == capacity,
            r.kind == MismatchKind::Bounds(hint),
    {
        CapacityMismatch { capacity, kind: MismatchKind::Bounds(hint) }
    }

    /// Creates an `Overflow` error against `capacity`.
    pub fn overflow(capacity: SizeHint) -> (r: Self)
        ensures
            r.capacity == capacity,
            r.kind == MismatchKind::Overflow,
    {
        CapacityMismatch { capacity, kind: MismatchKind::Overflow }
    }

    /// Creates an `Underflow` error: `count` items, fewer than `capacity` requires.
    pub fn underflow(capacity: SizeHint, count: usize) -> (r: Self)
        ensures
            r.capacity == capacity,
            r.kind == (MismatchKind::Underflow { count }),
    {
        CapacityMismatch { capacity, kind: MismatchKind::Underflow { count } }
    }
}

} // verus!
