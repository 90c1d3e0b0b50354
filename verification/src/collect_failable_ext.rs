use vstd::prelude::*;

use crate::iter::ItemIterator;
use crate::traits::TryFromIterator;

verus! {

/// Extends iterators with a failable collect method.
pub trait FailableCollectExt: ItemIterator {
    /// Collects the iterator into a container, returning an error if constructing the container
    /// fails. This is [`TryFromIterator::try_from_iter`] in method position.
    fn try_collect_ext<C: TryFromIterator<Self>>(self) -> (r: Result<C, C::Error>)
        requires
            C::from_iter_requires(self),
        ensures
            C::from_iter_ensures(self, r),
    ;
}

impl<I: ItemIterator> FailableCollectExt for I {
    fn try_collect_ext<C: TryFromIterator<Self>>(self) -> (r: Result<C, C::Error>) {
        C::try_from_iter(self)
    }
}

} // verus!
