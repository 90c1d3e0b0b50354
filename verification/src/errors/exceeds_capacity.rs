use vstd::prelude::*;

verus! {

/// An error produced when an iterator produces more items than a fixed-capacity vector holds.
#[derive(Debug, PartialEq, Eq)]
pub struct ExceedsCapacity {
    /// The capacity of the vector.
    pub capacity: usize,
    /// The lower bound of the number of items required to hold the iterator.
    pub required: usize,
}

impl ExceedsCapacity {
    /// Creates an error for `required` items against `capacity`.
    pub fn new(capacity: usize, required: usize) -> (r: Self)
        ensures
            r.capacity == capacity,
            r.required == required,
    {
        ExceedsCapacity { capacity, required }
    }
}

} // verus!
