use vstd::prelude::*;

verus! {

/// The data of one failed side of a tuple collection.
#[derive(Debug)]
pub struct TupleCollectionErrorSideData<SideErr, From> {
    /// The error from building that side's collection.
    pub error: SideErr,
    /// The data kept from the other side.
    pub from: From,
}

/// One failed side of a tuple collection.
#[derive(Debug)]
pub struct TupleCollectionErrorSide<SideErr, From> {
    data: Box<TupleCollectionErrorSideData<SideErr, From>>,
}

impl<SideErr, From> View for TupleCollectionErrorSide<SideErr, From> {
    type V = TupleCollectionErrorSideData<SideErr, From>;

    closed spec fn view(&self) -> TupleCollectionErrorSideData<SideErr, From> {
        *self.data
    }
}

impl<SideErr, From> TupleCollectionErrorSide<SideErr, From> {
    /// Consumes the side, returning its error.
    pub fn into_error(self) -> (r: SideErr)
        ensures
            r == self@.error,
    {
        self.data.error
    }

    /// Consumes the side, returning its data.
    pub fn into_data(self) -> (r: TupleCollectionErrorSideData<SideErr, From>)
        ensures
            r == self@,
    {
        *self.data
    }
}

impl<SideErr, From> std::ops::Deref for TupleCollectionErrorSide<SideErr, From> {
    type Target = TupleCollectionErrorSideData<SideErr, From>;

    fn deref(&self) -> (r: &TupleCollectionErrorSideData<SideErr, From>)
        ensures
            *r == self@,
    {
        &self.data
    }
}

/// An error that occurs when collecting a pair of collections from an iterator fails, keeping
/// the data of the side that did not fail.
#[derive(Debug)]
pub enum TupleCollectionError<ErrA, ErrB, FromA, FromB> {
    /// The first collection failed; the data for the second is kept.
    A(TupleCollectionErrorSide<ErrA, FromB>),
    /// The second collection failed; the data for the first is kept.
    B(TupleCollectionErrorSide<ErrB, FromA>),
}

impl<ErrA, ErrB, FromA, FromB> TupleCollectionError<ErrA, ErrB, FromA, FromB> {
    /// Creates an error for a failure of the first collection.
    pub fn new_a(error: ErrA, from: FromB) -> (r: Self)
        ensures
            r matches TupleCollectionError::A(side) && side@.error == error && side@.from == from,
    {
        TupleCollectionError::A(
            TupleCollectionErrorSide { data: Box::new(TupleCollectionErrorSideData { error, from }) },
        )
    }

    /// Creates an error for a failure of the second collection.
    pub fn new_b(error: ErrB, from: FromA) -> (r: Self)
        ensures
            r matches TupleCollectionError::B(side) && side@.error == error && side@.from == from,
    {
        TupleCollectionError::B(
            TupleCollectionErrorSide { data: Box::new(TupleCollectionErrorSideData { error, from }) },
        )
    }

    /// Whether the first collection failed.
    pub fn is_a(&self) -> (r: bool)
        ensures
            r == (self is A),
    {
        match self {
            TupleCollectionError::A(_) => true,
            TupleCollectionError::B(_) => false,
        }
    }

    /// Whether the second collection failed.
    pub fn is_b(&self) -> (r: bool)
        ensures
            r == (self is B),
    {
        match self {
            TupleCollectionError::A(_) => false,
            TupleCollectionError::B(_) => true,
        }
    }

    /// Returns the failed first side; the first collection must be the one that failed.
    pub fn expect_a(self, msg: &str) -> (r: TupleCollectionErrorSide<ErrA, FromB>)
        requires
            self is A,
        ensures
            self == TupleCollectionError::<ErrA, ErrB, FromA, FromB>::A(r),
    {
        match self {
            TupleCollectionError::A(side) => side,
            TupleCollectionError::B(_) => vstd::pervasive::unreached(),
        }
    }

    /// Returns the failed second side; the second collection must be the one that failed.
    pub fn expect_b(self, msg: &str) -> (r: TupleCollectionErrorSide<ErrB, FromA>)
        requires
            self is B,
        ensures
            self == TupleCollectionError::<ErrA, ErrB, FromA, FromB>::B(r),
    {
        match self {
            TupleCollectionError::B(side) => side,
            TupleCollectionError::A(_) => vstd::pervasive::unreached(),
        }
    }
}

} // verus!
