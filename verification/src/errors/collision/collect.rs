use vstd::prelude::*;

use crate::errors::collision::error::Collision;
use crate::errors::CollectError;

verus! {

/// Specialization of [`CollectError`] for [`Collision`]: collection failed because an item
/// collided with one already collected.
impl<T, I, C> CollectError<I, C, Collision<T>> {
    /// Creates a collision error from the rest of the iterator, the collected items, and the
    /// colliding item.
    pub fn collision(iter: I, collected: C, item: T) -> (r: Self)
        ensures
            r@.remain == iter,
            r@.collected == collected,
            r@.error.item == item,
    {
        Self::new(iter, collected, Collision::new(item))
    }
}

} // verus!
