use vstd::prelude::*;

verus! {

/// The state captured by an [`UnzipError`].
#[derive(Debug)]
pub struct UnzipErrorData<E, Failed, Partial, Pending, I> {
    /// The error from the side that failed.
    pub error: E,
    /// The partial collection of the side that failed.
    pub failed: Failed,
    /// The incomplete collection of the side that succeeded.
    pub partial: Partial,
    /// The item of the side that succeeded that was not added, if any.
    pub pending: Option<Pending>,
    /// The iterator after the failing pair.
    pub remaining: I,
}

/// An error that occurs when unzipping an iterator into two collections fails, keeping both
/// partial collections, the error, the pending item, and the rest of the iterator.
#[derive(Debug)]
pub struct UnzipError<E, Failed, Partial, Pending, I> {
    data: Box<UnzipErrorData<E, Failed, Partial, Pending, I>>,
}

impl<E, Failed, Partial, Pending, I> View for UnzipError<E, Failed, Partial, Pending, I> {
    type V = UnzipErrorData<E, Failed, Partial, Pending, I>;

    closed spec fn view(&self) -> UnzipErrorData<E, Failed, Partial, Pending, I> {
        *self.data
    }
}

impl<E, Failed, Partial, Pending, I> UnzipError<E, Failed, Partial, Pending, I> {
    /// Creates an error from its parts.
    pub fn new(
        error: E,
        failed: Failed,
        partial: Partial,
        pending: Option<Pending>,
        remaining: I,
    ) -> (r: Self)
        ensures
            r@.error == error,
            r@.failed == failed,
            r@.partial == partial,
            r@.pending == pending,
            r@.remaining == remaining,
    {
        UnzipError {
            data: Box::new(UnzipErrorData { error, failed, partial, pending, remaining }),
        }
    }

    /// Consumes the error, returning its data.
    pub fn into_data(self) -> (r: UnzipErrorData<E, Failed, Partial, Pending, I>)
        ensures
            r == self@,
    {
        *self.data
    }
}

impl<E, Failed, Partial, Pending, I> std::ops::Deref for UnzipError<
    E,
    Failed,
    Partial,
    Pending,
    I,
> {
    type Target = UnzipErrorData<E, Failed, Partial, Pending, I>;

    fn deref(&self) -> (r: &UnzipErrorData<E, Failed, Partial, Pending, I>)
        ensures
            *r == self@,
    {
        &self.data
    }
}

} // verus!
