use vstd::prelude::*;

verus! {

/// A single item that cannot be added to a collection because it collides with one already
/// held.
#[derive(Debug, PartialEq, Eq)]
pub struct ItemCollision<T> {
    /// The item that could not be inserted.
    pub item: T,
}

impl<T> ItemCollision<T> {
    /// Creates an item collision error holding `item`.
    pub fn new(item: T) -> (r: Self)
        ensures
            r.item == item,
    {
        ItemCollision { item }
    }
}

} // verus!
