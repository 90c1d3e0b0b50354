use vstd::prelude::*;

use crate::errors::collect_error::{option_seq, recover_items};
use crate::errors::ErrorItemProvider;
use crate::iter::{IntoItems, ItemIterator};

verus! {

/// The state captured by an [`ExtendError`]: the rest of the iterator and the error.
#[derive(Debug)]
pub struct ExtendErrorData<I, E> {
    /// The iterator, positioned after the last item taken.
    pub remain: I,
    /// The error that occurred.
    pub error: E,
}

/// An error that occurs when extending a collection fails.
///
/// Extension gives a basic error guarantee: the items already added stay in the collection.
/// The error keeps the refused item (if any) and the rest of the iterator.
#[derive(Debug)]
pub struct ExtendError<I, E> {
    data: Box<ExtendErrorData<I, E>>,
}

impl<I, E> View for ExtendError<I, E> {
    type V = ExtendErrorData<I, E>;

    closed spec fn view(&self) -> ExtendErrorData<I, E> {
        *self.data
    }
}

impl<I, E> ExtendError<I, E> {
    /// Creates an error from the rest of the iterator and the error.
    pub fn new(remain: I, error: E) -> (r: Self)
        ensures
            r@.remain == remain,
            r@.error == error,
    {
        ExtendError { data: Box::new(ExtendErrorData { remain, error }) }
    }

    /// Consumes the error, returning its data.
    pub fn into_data(self) -> (r: ExtendErrorData<I, E>)
        ensures
            r == self@,
    {
        *self.data
    }
}

impl<I, E> std::ops::Deref for ExtendError<I, E> {
    type Target = ExtendErrorData<I, E>;

    fn deref(&self) -> (r: &ExtendErrorData<I, E>)
        ensures
            *r == self@,
    {
        &self.data
    }
}

impl<T, I: ItemIterator<Item = T>, E: ErrorItemProvider<Item = T>> ExtendError<I, E> {
    /// Consumes the error and returns the refused item (if any) followed by the rest of the
    /// iterator.
    pub fn into_items(self) -> (r: Vec<T>)
        ensures
            r@ == option_seq(self@.error.rejected()) + self@.remain.remaining(),
    {
        let data = self.into_data();
        let item = data.error.into_item();
        let empty: Vec<T> = Vec::new();
        proof {
            broadcast use vstd::seq_lib::group_to_multiset_ensures;
            assert(empty.item_bag().len() == 0);
        }
        let r = recover_items(item, empty, data.remain);
        proof {
            let f = option_seq(self@.error.rejected());
            let b = self@.remain.remaining();
            assert(r@.len() == f.len() + b.len());
            assert(r@ =~= r@.subrange(0, f.len() as int) + r@.subrange(
                r@.len() - b.len(),
                r@.len() as int,
            ));
        }
        r
    }
}

} // verus!
