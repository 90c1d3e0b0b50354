use vstd::prelude::*;

use crate::errors::OneOf2;
use crate::traits::TryExtendOne;

verus! {

/// Which side of a pair extension failed, and how.
#[derive(Debug)]
pub struct TupleExtensionErrorSide<SideErr, Unevaluated> {
    /// The error the failing collection returned.
    pub error: SideErr,
    /// The item for the other collection that was not added, if any.
    pub unevaluated: Option<Unevaluated>,
}

/// The state captured by a [`TupleExtensionError`].
#[derive(Debug)]
pub struct TupleExtensionErrorData<CollA: TryExtendOne, CollB: TryExtendOne, I> {
    /// Which side failed: `A` when the first collection failed, `B` when the second did.
    pub side: OneOf2<
        TupleExtensionErrorSide<CollA::Error, CollB::Item>,
        TupleExtensionErrorSide<CollB::Error, CollA::Item>,
    >,
    /// The iterator after the failing pair.
    pub remaining: I,
}

/// An error that occurs when extending a pair of collections fails. It keeps the error of the
/// side that failed, any item of the other side that was not added, and the rest of the
/// iterator.
pub struct TupleExtensionError<CollA: TryExtendOne, CollB: TryExtendOne, I> {
    data: Box<TupleExtensionErrorData<CollA, CollB, I>>,
}

impl<CollA: TryExtendOne, CollB: TryExtendOne, I> View for TupleExtensionError<CollA, CollB, I> {
    type V = TupleExtensionErrorData<CollA, CollB, I>;

    closed spec fn view(&self) -> TupleExtensionErrorData<CollA, CollB, I> {
        *self.data
    }
}

impl<CollA: TryExtendOne, CollB: TryExtendOne, I> TupleExtensionError<CollA, CollB, I> {
    /// Creates an error with the first collection having failed.
    pub fn new_a(error: CollA::Error, unevaluated: Option<CollB::Item>, remaining: I) -> (r: Self)
        ensures
            r@.side == OneOf2::<
                TupleExtensionErrorSide<CollA::Error, CollB::Item>,
                TupleExtensionErrorSide<CollB::Error, CollA::Item>,
            >::A(TupleExtensionErrorSide { error, unevaluated }),
            r@.remaining == remaining,
    {
        let side = OneOf2::A(TupleExtensionErrorSide { error, unevaluated });
        TupleExtensionError { data: Box::new(TupleExtensionErrorData { side, remaining }) }
    }

    /// Creates an error with the second collection having failed.
    pub fn new_b(error: CollB::Error, unevaluated: Option<CollA::Item>, remaining: I) -> (r: Self)
        ensures
            r@.side == OneOf2::<
                TupleExtensionErrorSide<CollA::Error, CollB::Item>,
                TupleExtensionErrorSide<CollB::Error, CollA::Item>,
            >::B(TupleExtensionErrorSide { error, unevaluated }),
            r@.remaining == remaining,
    {
        let side = OneOf2::B(TupleExtensionErrorSide { error, unevaluated });
        TupleExtensionError { data: Box::new(TupleExtensionErrorData { side, remaining }) }
    }

    /// Consumes the error, returning its data.
    pub fn into_data(self) -> (r: TupleExtensionErrorData<CollA, CollB, I>)
        ensures
            r == self@,
    {
        *self.data
    }
}

impl<CollA: TryExtendOne, CollB: TryExtendOne, I> std::ops::Deref for TupleExtensionError<
    CollA,
    CollB,
    I,
> {
    type Target = TupleExtensionErrorData<CollA, CollB, I>;

    fn deref(&self) -> (r: &TupleExtensionErrorData<CollA, CollB, I>)
        ensures
            *r == self@,
    {
        &self.data
    }
}

} // verus!
