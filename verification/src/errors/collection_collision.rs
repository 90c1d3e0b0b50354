use vstd::multiset::Multiset;
use vstd::prelude::*;

use crate::errors::collect_error::{recover_items, recovered_in_order};
use crate::iter::{ExactLen, IntoItems, ItemCount, ItemIterator};

verus! {

/// The state captured by a [`CollectionCollision`].
#[derive(Debug)]
pub struct CollectionCollisionData<I: ItemIterator, C> {
    /// The iterator, positioned after the colliding item.
    pub iterator: I,
    /// The items collected before the collision.
    pub collected: C,
    /// The item that caused the collision.
    pub item: I::Item,
}

/// An error that occurs when an item collides with one already collected, keeping the
/// partially consumed iterator, the collected items and the colliding item, so that they can be
/// handled as desired or the items of the source iterator recovered.
pub struct CollectionCollision<I: ItemIterator, C> {
    data: Box<CollectionCollisionData<I, C>>,
}

impl<I: ItemIterator, C> View for CollectionCollision<I, C> {
    type V = CollectionCollisionData<I, C>;

    closed spec fn view(&self) -> CollectionCollisionData<I, C> {
        *self.data
    }
}

impl<I: ItemIterator, C> CollectionCollision<I, C> {
    /// Creates an error from the iterator, the collected items and the colliding item.
    pub fn new(iterator: I, collected: C, item: I::Item) -> (r: Self)
        ensures
            r@.iterator == iterator,
            r@.collected == collected,
            r@.item == item,
    {
        CollectionCollision { data: Box::new(CollectionCollisionData { iterator, collected, item }) }
    }

    /// Consumes the error, returning the colliding item.
    pub fn into_item(self) -> (r: I::Item)
        ensures
            r == self@.item,
    {
        self.data.item
    }

    /// Consumes the error, returning its data.
    pub fn into_data(self) -> (r: CollectionCollisionData<I, C>)
        ensures
            r == self@,
    {
        *self.data
    }

    /// The number of items held: those collected, those left in the iterator, and the
    /// colliding item.
    pub fn len(&self) -> (r: usize)
        where
            I: ExactLen,
            C: ItemCount,
        requires
            self@.collected.item_bag().len() + self@.iterator.remaining().len() + 1 <= usize::MAX,
        ensures
            r == self@.collected.item_bag().len() + self@.iterator.remaining().len() + 1,
    {
        self.data.collected.item_count() + self.data.iterator.exact_len() + 1
    }

    /// Always `false`: the colliding item is always held.
    pub fn is_empty(&self) -> (r: bool)
        where
            I: ExactLen,
            C: ItemCount,
        ensures
            !r,
    {
        false
    }
}

impl<I: ItemIterator, C> std::ops::Deref for CollectionCollision<I, C> {
    type Target = CollectionCollisionData<I, C>;

    fn deref(&self) -> (r: &CollectionCollisionData<I, C>)
        ensures
            *r == self@,
    {
        &self.data
    }
}

impl<T, I: ItemIterator<Item = T>, C: IntoItems<Item = T>> CollectionCollision<I, C> {
    /// Consumes the error and returns the colliding item, then the collected items, then the
    /// rest of the iterator.
    pub fn into_items(self) -> (r: Vec<T>)
        ensures
            recovered_in_order(
                r@,
                seq![self@.item],
                self@.collected.item_bag(),
                self@.iterator.remaining(),
            ),
            r@.to_multiset() =~= Multiset::singleton(self@.item).add(
                self@.collected.item_bag(),
            ).add(self@.iterator.remaining().to_multiset()),
            self@.collected.item_order() matches Some(m) ==> r@ == seq![self@.item] + m
                + self@.iterator.remaining(),
    {
        let data = self.into_data();
        recover_items(Some(data.item), data.collected, data.iterator)
    }
}

} // verus!
