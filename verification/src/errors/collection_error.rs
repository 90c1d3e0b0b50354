use vstd::prelude::*;

use crate::errors::capacity_error::{CapacityError, CapacityErrorKind};
use crate::errors::collect_error::{option_seq, recover_items, recovered_in_order};
use crate::errors::{Collision, ErrorItemProvider};
use crate::iter::{option_bag, IntoItems, ItemCount, ItemIterator};
use crate::size_hint::{valid_hint, SizeHint};

verus! {

/// The state captured by a [`CollectionError`].
#[derive(Debug)]
pub struct CollectionErrorData<I, C, E> {
    /// The iterator that produced the items, partially or fully consumed.
    pub iterator: I,
    /// The items collected; it may be empty.
    pub collected: C,
    /// The error; it may hold an item produced by the iterator but refused by the collection.
    pub error: E,
}

/// An error that occurs when collecting an iterator into a collection, or extending one, fails.
///
/// It keeps everything needed to recover the items of the iterator: the item refused by the
/// error (if any), the items collected, and the rest of the iterator. The data is read-only:
/// it may be borrowed through `Deref`, or moved out with [`CollectionError::into_data`].
#[derive(Debug)]
pub struct CollectionError<I, C, E> {
    data: Box<CollectionErrorData<I, C, E>>,
}

impl<I, C, E> View for CollectionError<I, C, E> {
    type V = CollectionErrorData<I, C, E>;

    closed spec fn view(&self) -> CollectionErrorData<I, C, E> {
        *self.data
    }
}

impl<I, C, E> CollectionError<I, C, E> {
    /// Creates an error from the iterator, the collected items and the error.
    pub fn new(iterator: I, collected: C, error: E) -> (r: Self)
        ensures
            r@.iterator == iterator,
            r@.collected == collected,
            r@.error == error,
    {
        CollectionError { data: Box::new(CollectionErrorData { iterator, collected, error }) }
    }

    /// Consumes the error, returning its data.
    pub fn into_data(self) -> (r: CollectionErrorData<I, C, E>)
        ensures
            r == self@,
    {
        *self.data
    }
}

impl<I, C, E> std::ops::Deref for CollectionError<I, C, E> {
    type Target = CollectionErrorData<I, C, E>;

    fn deref(&self) -> (r: &CollectionErrorData<I, C, E>)
        ensures
            *r == self@,
    {
        &self.data
    }
}

/// Specialization of [`CollectionError`] for [`CapacityError`].
impl<T, I: ItemIterator<Item = T>, C> CollectionError<I, C, CapacityError<T>> {
    /// Creates a `Bounds` error after a check of the bounds `iterator` reports against
    /// `capacity`. No items are collected.
    pub fn bounds(iterator: I, capacity: SizeHint) -> (r: Self)
        where
            C: IntoItems,
        requires
            valid_hint(iterator.hint()),
        ensures
            r@.iterator == iterator,
            r@.collected.item_bag().len() == 0,
            r@.error.capacity == capacity,
            r@.error.kind matches CapacityErrorKind::Bounds { hint } && hint@ == iterator.hint(),
    {
        let raw = iterator.size_hint();
        let hint = SizeHint::new(raw.0, raw.1);
        Self::new(iterator, C::empty(), CapacityError::bounds(capacity, hint))
    }

    /// Creates an `Overflow` error: `rejected` was taken from `iterator` but did not fit into
    /// `capacity`.
    pub fn overflow(iterator: I, collected: C, rejected: T, capacity: SizeHint) -> (r: Self)
        ensures
            r@.iterator == iterator,
            r@.collected == collected,
            r@.error.capacity == capacity,
            r@.error.kind == (CapacityErrorKind::Overflow { rejected }),
    {
        Self::new(iterator, collected, CapacityError::overflow(capacity, rejected))
    }

    /// Creates an `Overflow` error for an extension that filled the target collection: the
    /// collected items are in the target, so none are kept here, and no capacity remains.
    pub fn overflowed(iterator: I, rejected: T) -> (r: Self)
        where
            C: IntoItems,
        ensures
            r@.iterator == iterator,
            r@.collected.item_bag().len() == 0,
            r@.error.capacity@ == (0usize, Some(0usize)),
            r@.error.kind == (CapacityErrorKind::Overflow { rejected }),
    {
        Self::new(iterator, C::empty(), CapacityError::overflowed(rejected))
    }

    /// Creates an `Underflow` error: `iterator` ended after the items in `collected`, fewer
    /// than `capacity` requires.
    pub fn underflow(iterator: I, collected: C, capacity: SizeHint) -> (r: Self)
        where
            C: ItemCount,
        ensures
            r@.iterator == iterator,
            r@.collected == collected,
            r@.error.capacity == capacity,
            r@.error.kind == (CapacityErrorKind::<T>::Underflow {
                count: collected.item_bag().len() as usize,
            }),
    {
        let count = collected.item_count();
        Self::new(iterator, collected, CapacityError::underflow(capacity, count))
    }
}

/// Specialization of [`CollectionError`] for [`Collision`].
impl<T, I, C> CollectionError<I, C, Collision<T>> {
    /// Creates a collision error from the rest of the iterator, the collected items and the
    /// colliding item.
    pub fn collision(iterator: I, collected: C, item: T) -> (r: Self)
        ensures
            r@.iterator == iterator,
            r@.collected == collected,
            r@.error.item == item,
    {
        Self::new(iterator, collected, Collision::new(item))
    }
}

impl<T, I: ItemIterator<Item = T>, C: IntoItems<Item = T>, E: ErrorItemProvider<Item = T>> CollectionError<
    I,
    C,
    E,
> {
    /// Consumes the error and returns every item taken from the source iterator: the item
    /// refused by the error (if any), then the collected items, then the rest of the iterator.
    pub fn into_items(self) -> (r: Vec<T>)
        ensures
            recovered_in_order(
                r@,
                option_seq(self@.error.rejected()),
                self@.collected.item_bag(),
                self@.iterator.remaining(),
            ),
            r@.to_multiset() =~= option_bag(self@.error.rejected()).add(
                self@.collected.item_bag(),
            ).add(self@.iterator.remaining().to_multiset()),
            self@.collected.item_order() matches Some(m) ==> r@ == option_seq(
                self@.error.rejected(),
            ) + m + self@.iterator.remaining(),
    {
        let data = self.into_data();
        let item = data.error.into_item();
        recover_items(item, data.collected, data.iterator)
    }
}

} // verus!
