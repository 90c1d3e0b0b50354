use vstd::prelude::*;

verus! {

/// The state captured by a [`ResultCollectError`].
#[derive(Debug)]
pub struct ResultCollectErrorData<E, C, CErr, I> {
    /// The first `Err` the iterator produced.
    pub error: E,
    /// The outcome of building the collection from the `Ok` values before it.
    pub result: Result<C, CErr>,
    /// The items of the iterator after that `Err`.
    pub iter: I,
}

/// An error that occurs when an iterator of `Result`s produces an `Err` while its `Ok` values
/// are collected. It keeps the error, the outcome of the partial collection, and the rest of
/// the iterator.
#[derive(Debug)]
pub struct ResultCollectError<E, C, CErr, I> {
    data: Box<ResultCollectErrorData<E, C, CErr, I>>,
}

impl<E, C, CErr, I> View for ResultCollectError<E, C, CErr, I> {
    type V = ResultCollectErrorData<E, C, CErr, I>;

    closed spec fn view(&self) -> ResultCollectErrorData<E, C, CErr, I> {
        *self.data
    }
}

impl<E, C, CErr, I> ResultCollectError<E, C, CErr, I> {
    /// Creates an error from the iterator error, the collection outcome and the rest of the
    /// iterator.
    pub fn new(error: E, result: Result<C, CErr>, iter: I) -> (r: Self)
        ensures
            r@.error == error,
            r@.result == result,
            r@.iter == iter,
    {
        ResultCollectError { data: Box::new(ResultCollectErrorData { error, result, iter }) }
    }

    /// Consumes the error, returning its data.
    pub fn into_data(self) -> (r: ResultCollectErrorData<E, C, CErr, I>)
        ensures
            r == self@,
    {
        *self.data
    }
}

impl<E, C, CErr, I> std::ops::Deref for ResultCollectError<E, C, CErr, I> {
    type Target = ResultCollectErrorData<E, C, CErr, I>;

    fn deref(&self) -> (r: &ResultCollectErrorData<E, C, CErr, I>)
        ensures
            *r == self@,
    {
        &self.data
    }
}

} // verus!
