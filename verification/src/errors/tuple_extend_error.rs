use vstd::prelude::*;

verus! {

/// The state captured by a [`TupleExtendError`].
#[derive(Debug)]
pub struct TupleExtendErrorData<E, P, I> {
    /// The error from the side that failed.
    pub error: E,
    /// The item for the other side that was not added, if any.
    pub pending: Option<P>,
    /// The iterator after the failing pair.
    pub remaining: I,
}

/// An error that occurs when extending a pair of collections fails, keeping the error of the
/// failed side, the pending item of the other side, and the rest of the iterator.
#[derive(Debug)]
pub struct TupleExtendError<E, P, I> {
    data: Box<TupleExtendErrorData<E, P, I>>,
}

impl<E, P, I> View for TupleExtendError<E, P, I> {
    type V = TupleExtendErrorData<E, P, I>;

    closed spec fn view(&self) -> TupleExtendErrorData<E, P, I> {
        *self.data
    }
}

impl<E, P, I> TupleExtendError<E, P, I> {
    /// Creates an error from the failed side's error, the pending item and the rest of the
    /// iterator.
    pub fn new(error: E, pending: Option<P>, remaining: I) -> (r: Self)
        ensures
            r@.error == error,
            r@.pending == pending,
            r@.remaining == remaining,
    {
        TupleExtendError { data: Box::new(TupleExtendErrorData { error, pending, remaining }) }
    }

    /// Consumes the error, returning its data.
    pub fn into_data(self) -> (r: TupleExtendErrorData<E, P, I>)
        ensures
            r == self@,
    {
        *self.data
    }
}

impl<E, P, I> std::ops::Deref for TupleExtendError<E, P, I> {
    type Target = TupleExtendErrorData<E, P, I>;

    fn deref(&self) -> (r: &TupleExtendErrorData<E, P, I>)
        ensures
            *r == self@,
    {
        &self.data
    }
}

} // verus!
