use vstd::prelude::*;

verus! {

/// An error indicating that a duplicate value was found in the provided data.
#[derive(Debug, PartialEq, Eq)]
pub struct ValueCollision<T> {
    /// The value that caused the collision.
    pub value: T,
}

impl<T> ValueCollision<T> {
    /// Creates a value collision error for `value`.
    pub fn new(value: T) -> (r: Self)
        ensures
            r.value == value,
    {
        ValueCollision { value }
    }
}

} // verus!
