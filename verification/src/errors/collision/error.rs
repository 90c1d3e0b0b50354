use vstd::prelude::*;

use crate::errors::ErrorItemProvider;

verus! {

/// An item that could not be added to a collection because it collides with an item already
/// there, such as a duplicate key in a map or a duplicate value in a set.
#[derive(Debug, PartialEq, Eq)]
pub struct Collision<T> {
    /// The item that could not be inserted.
    pub item: T,
}

impl<T> Collision<T> {
    /// Creates a collision error holding `item`.
    pub fn new(item: T) -> (r: Self)
        ensures
            r.item == item,
    {
        Collision { item }
    }
}

impl<T> ErrorItemProvider for Collision<T> {
    type Item = T;

    open spec fn rejected(&self) -> Option<T> {
        Some(self.item)
    }

    fn into_item(self) -> (r: Option<T>) {
        Some(self.item)
    }

    fn item(&self) -> (r: Option<&T>) {
        Some(&self.item)
    }
}

} // verus!
