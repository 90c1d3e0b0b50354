use vstd::prelude::*;

use crate::iter::ItemIterator;

verus! {

/// An error indicating that an iterator is not empty.
#[derive(Debug)]
pub struct NotEmpty<I: ItemIterator> {
    /// The iterator with the first item removed.
    pub iter: I,
    /// The first item yielded by the iterator.
    pub item: I::Item,
}

/// Ensures an iterator is empty.
pub trait EnsureEmpty: ItemIterator {
    /// Checks that no item remains. When one does, it is taken and returned with the rest of
    /// the iterator.
    fn ensure_empty(self) -> (r: Result<(), NotEmpty<Self>>)
        ensures
            r is Ok <==> self.remaining().len() == 0,
            r matches Err(e) ==> e.item == self.remaining()[0] && e.iter.remaining()
                == self.remaining().drop_first(),
    ;
}

impl<I: ItemIterator> EnsureEmpty for I {
    fn ensure_empty(self) -> (r: Result<(), NotEmpty<Self>>) {
        let mut iter = self;
        match iter.next() {
            None => Ok(()),
            Some(item) => Err(NotEmpty { iter, item }),
        }
    }
}

} // verus!
