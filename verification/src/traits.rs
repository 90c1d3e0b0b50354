use vstd::prelude::*;

verus! {

/// Builds a collection from an iterator, failing when the items cannot form a valid collection.
pub trait TryFromIterator<I>: Sized {
    /// The error returned when the collection cannot be built.
    type Error;

    /// What an iterator must satisfy to be collected (for most collections, nothing).
    spec fn from_iter_requires(iter: I) -> bool;

    /// `r` is the outcome of collecting `iter`.
    spec fn from_iter_ensures(iter: I, r: Result<Self, Self::Error>) -> bool;

    /// Builds the collection from the items of `iter`.
    fn try_from_iter(iter: I) -> (r: Result<Self, Self::Error>)
        requires
            Self::from_iter_requires(iter),
        ensures
            Self::from_iter_ensures(iter, r),
    ;
}

/// Extends a collection with the items of an iterator, failing when an item is refused.
///
/// This gives a basic error guarantee: on failure the collection is valid but may hold some of
/// the items.
pub trait TryExtend<I>: Sized {
    /// The error returned when an item is refused.
    type Error;

    /// What the collection and the iterator must satisfy (for most collections, nothing).
    spec fn extend_requires(pre: Self, iter: I) -> bool;

    /// `post` and `r` are the outcome of extending `pre` with `iter`.
    spec fn extend_ensures(pre: Self, iter: I, post: Self, r: Result<(), Self::Error>) -> bool;

    /// Adds the items of `iter` to the collection.
    fn try_extend(&mut self, iter: I) -> (r: Result<(), Self::Error>)
        requires
            Self::extend_requires(*old(self), iter),
        ensures
            Self::extend_ensures(*old(self), iter, *final(self), r),
    ;
}

/// Extends a collection with the items of an iterator with a strong error guarantee: on
/// failure the collection is left exactly as it was.
pub trait TryExtendSafe<I>: TryExtend<I> {
    /// The error returned when an item is refused; it holds what was taken from the iterator.
    type Error;

    /// `post` and `r` are the outcome of extending `pre` with `iter` safely.
    spec fn extend_safe_ensures(
        pre: Self,
        iter: I,
        post: Self,
        r: Result<(), <Self as TryExtendSafe<I>>::Error>,
    ) -> bool;

    /// Adds the items of `iter` to the collection, or leaves it unchanged.
    fn try_extend_safe(&mut self, iter: I) -> (r: Result<(), <Self as TryExtendSafe<I>>::Error>)
        requires
            Self::extend_requires(*old(self), iter),
        ensures
            Self::extend_safe_ensures(*old(self), iter, *final(self), r),
            r is Err ==> *final(self) == *old(self),
    ;
}

/// Adds a single item to a collection, failing when the item is refused.
pub trait TryExtendOne: Sized {
    /// The item added.
    type Item;

    /// The error returned when the item is refused.
    type Error;

    /// `post` and `r` are the outcome of adding `item` to `pre`.
    spec fn extend_one_ensures(
        pre: Self,
        item: Self::Item,
        post: Self,
        r: Result<(), Self::Error>,
    ) -> bool;

    /// Adds `item` to the collection.
    fn try_extend_one(&mut self, item: Self::Item) -> (r: Result<(), Self::Error>)
        ensures
            Self::extend_one_ensures(*old(self), item, *final(self), r),
    ;
}

} // verus!
