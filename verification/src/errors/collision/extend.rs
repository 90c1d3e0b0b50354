use vstd::prelude::*;

use crate::errors::collision::error::Collision;
use crate::errors::ExtendError;

verus! {

/// Specialization of [`ExtendError`] for [`Collision`]: extension failed because an item
/// collided with one already in the collection.
impl<T, I> ExtendError<I, Collision<T>> {
    /// Creates a collision error from the rest of the iterator and the colliding item.
    pub fn collision(iter: I, item: T) -> (r: Self)
        ensures
            r@.remain == iter,
            r@.error.item == item,
    {
        Self::new(iter, Collision::new(item))
    }
}

} // verus!
