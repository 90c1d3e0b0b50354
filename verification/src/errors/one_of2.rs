use vstd::prelude::*;

verus! {

/// An error that is one of two errors, for operations that can fail in either of two ways,
/// such as unzipping an iterator into two collections where either may fail to extend.
#[derive(Debug, PartialEq, Eq)]
pub enum OneOf2<ErrA, ErrB> {
    /// The operation failed with the first error.
    A(ErrA),
    /// The operation failed with the second error.
    B(ErrB),
}

impl<ErrA, ErrB> OneOf2<ErrA, ErrB> {
    /// Whether this is the first error.
    pub fn is_a(&self) -> (r: bool)
        ensures
            r == (self is A),
    {
        match self {
            OneOf2::A(_) => true,
            OneOf2::B(_) => false,
        }
    }

    /// Whether this is the second error.
    pub fn is_b(&self) -> (r: bool)
        ensures
            r == (self is B),
    {
        match self {
            OneOf2::A(_) => false,
            OneOf2::B(_) => true,
        }
    }

    /// Returns the first error, or this error unchanged when it is the second.
    pub fn try_unwrap_a(self) -> (r: Result<ErrA, Self>)
        ensures
            match self {
                OneOf2::A(a) => r == Ok::<ErrA, Self>(a),
                OneOf2::B(_) => r == Err::<ErrA, Self>(self),
            },
    {
        match self {
            OneOf2::A(a) => Ok(a),
            OneOf2::B(b) => Err(OneOf2::B(b)),
        }
    }

    /// Returns the second error, or this error unchanged when it is the first.
    pub fn try_unwrap_b(self) -> (r: Result<ErrB, Self>)
        ensures
            match self {
                OneOf2::B(b) => r == Ok::<ErrB, Self>(b),
                OneOf2::A(_) => r == Err::<ErrB, Self>(self),
            },
    {
        match self {
            OneOf2::B(b) => Ok(b),
            OneOf2::A(a) => Err(OneOf2::A(a)),
        }
    }

    /// Returns the first error; this must be the first error.
    pub fn unwrap_a(self) -> (r: ErrA)
        requires
            self is A,
        ensures
            self == OneOf2::<ErrA, ErrB>::A(r),
    {
        match self {
            OneOf2::A(a) => a,
            OneOf2::B(_) => vstd::pervasive::unreached(),
        }
    }

    /// Returns the second error; this must be the second error.
    pub fn unwrap_b(self) -> (r: ErrB)
        requires
            self is B,
        ensures
            self == OneOf2::<ErrA, ErrB>::B(r),
    {
        match self {
            OneOf2::B(b) => b,
            OneOf2::A(_) => vstd::pervasive::unreached(),
        }
    }
}

} // verus!
