use vstd::prelude::*;

verus! {

/// An error indicating that the number of items in the iterator did not match the expected
/// count.
#[derive(Debug, PartialEq, Eq, PartialOrd, Ord)]
pub struct ItemCountMismatch {
    /// The expected number of items.
    pub expected: usize,
    /// The actual number of items.
    pub actual: usize,
}

impl ItemCountMismatch {
    /// Creates an error for `actual` items where `expected` were required.
    pub fn new(expected: usize, actual: usize) -> (r: Self)
        ensures
            r.expected == expected,
            r.actual == actual,
    {
        ItemCountMismatch { expected, actual }
    }
}

} // verus!
