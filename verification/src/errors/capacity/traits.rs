use vstd::prelude::*;

use crate::size_hint::SizeHint;

verus! {

/// A collection with a capacity for further items, which may change as it is modified.
pub trait RemainingCap {
    /// The bounds on the number of items the collection can still take.
    spec fn remaining_cap_hint(&self) -> (usize, Option<usize>);

    /// Returns the bounds on the number of items the collection can still take.
    fn remaining_cap(&self) -> (r: SizeHint)
        ensures
            r@ == self.remaining_cap_hint(),
    ;
}

/// A collection type whose capacity when empty is fixed.
pub trait FixedCap: RemainingCap {
    /// The bounds on the number of items an empty collection of this type takes.
    spec fn cap_hint() -> (usize, Option<usize>);

    /// Returns the bounds on the number of items an empty collection of this type takes.
    fn cap() -> (r: SizeHint)
        ensures
            r@ == Self::cap_hint(),
    ;
}

/// A collection that reports the bounds on the number of items it can hold in all.
pub trait Capacity {
    /// The bounds on the number of items the collection can hold.
    spec fn capacity_bounds(&self) -> (usize, Option<usize>);

    /// Returns the bounds on the number of items the collection can hold.
    fn capacity_hint(&self) -> (r: SizeHint)
        ensures
            r@ == self.capacity_bounds(),
    ;
}

/// A type with a designated starting value: the value a collection error holds as its
/// collected part when no item was taken.
pub trait DefaultValue: Sized {
    /// Whether `self` is the designated starting value.
    spec fn is_default_value(&self) -> bool;

    /// Returns the designated starting value.
    fn default_value() -> (r: Self)
        ensures
            r.is_default_value(),
    ;
}

impl DefaultValue for u8 {
    /// Zero.
    open spec fn is_default_value(&self) -> bool {
        *self == 0
    }

    fn default_value() -> (r: Self) {
        0
    }
}

impl DefaultValue for u32 {
    /// Zero.
    open spec fn is_default_value(&self) -> bool {
        *self == 0
    }

    fn default_value() -> (r: Self) {
        0
    }
}

impl DefaultValue for u64 {
    /// Zero.
    open spec fn is_default_value(&self) -> bool {
        *self == 0
    }

    fn default_value() -> (r: Self) {
        0
    }
}

impl DefaultValue for usize {
    /// Zero.
    open spec fn is_default_value(&self) -> bool {
        *self == 0
    }

    fn default_value() -> (r: Self) {
        0
    }
}

impl DefaultValue for i32 {
    /// Zero.
    open spec fn is_default_value(&self) -> bool {
        *self == 0
    }

    fn default_value() -> (r: Self) {
        0
    }
}

impl DefaultValue for i64 {
    /// Zero.
    open spec fn is_default_value(&self) -> bool {
        *self == 0
    }

    fn default_value() -> (r: Self) {
        0
    }
}

/// An empty vector.
impl<T> DefaultValue for Vec<T> {
    open spec fn is_default_value(&self) -> bool {
        self@.len() == 0
    }

    fn default_value() -> (r: Self) {
        Vec::new()
    }
}

/// An array whose every element is the starting value of its type.
impl<T: DefaultValue + Copy, const N: usize> DefaultValue for [T; N] {
    open spec fn is_default_value(&self) -> bool {
        forall|i: int| 0 <= i < N ==> (#[trigger] self@[i]).is_default_value()
    }

    fn default_value() -> (r: Self) {
        let x = T::default_value();
        [x; N]
    }
}

} // verus!
