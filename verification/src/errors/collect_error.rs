use vstd::multiset::Multiset;
use vstd::prelude::*;

use crate::errors::ErrorItemProvider;
use crate::iter::{drain_items, option_bag, IntoItems, ItemIterator};

verus! {

/// The items of an optional value, as a sequence of length zero or one.
pub open spec fn option_seq<T>(o: Option<T>) -> Seq<T> {
    match o {
        Some(x) => seq![x],
        None => Seq::empty(),
    }
}

/// `out` is `front`, then the items of `middle` in some order, then `back`.
pub open spec fn recovered_in_order<T>(
    out: Seq<T>,
    front: Seq<T>,
    middle: Multiset<T>,
    back: Seq<T>,
) -> bool {
    &&& out.len() == front.len() + middle.len() + back.len()
    &&& out.subrange(0, front.len() as int) == front
    &&& out.subrange(out.len() - back.len(), out.len() as int) == back
    &&& out.subrange(front.len() as int, out.len() - back.len()).to_multiset() == middle
}

/// Appending `front`, `middle` and `back` gives a sequence recovered in that order.
pub proof fn lemma_recovered_in_order<T>(front: Seq<T>, middle: Seq<T>, back: Seq<T>)
    ensures
        recovered_in_order(front + middle + back, front, middle.to_multiset(), back),
        (front + middle + back).to_multiset() =~= front.to_multiset().add(middle.to_multiset()).add(
            back.to_multiset(),
        ),
{
    let out = front + middle + back;
    assert(out.subrange(0, front.len() as int) =~= front);
    assert(out.subrange(out.len() - back.len(), out.len() as int) =~= back);
    assert(out.subrange(front.len() as int, out.len() - back.len()) =~= middle);
    vstd::seq_lib::lemma_multiset_commutative(front, middle);
    vstd::seq_lib::lemma_multiset_commutative(front + middle, back);
    broadcast use vstd::seq_lib::group_to_multiset_ensures;
    assert(middle.to_multiset().len() == middle.len());
}

/// The items of an optional value, as a sequence, have the same multiset as the value.
pub proof fn lemma_option_seq_bag<T>(o: Option<T>)
    ensures
        option_seq(o).to_multiset() =~= option_bag(o),
{
    broadcast use vstd::seq_lib::group_to_multiset_ensures;
    match o {
        Some(x) => {
            assert(seq![x] =~= Seq::<T>::empty().push(x));
        },
        None => {},
    }
}

/// Builds `front`, then the items of `middle`, then the items left in `back`, in one vector.
pub fn recover_items<T, C: IntoItems<Item = T>, I: ItemIterator<Item = T>>(
    front: Option<T>,
    middle: C,
    back: I,
) -> (r: Vec<T>)
    ensures
        recovered_in_order(r@, option_seq(front), middle.item_bag(), back.remaining()),
        r@.to_multiset() =~= option_bag(front).add(middle.item_bag()).add(
            back.remaining().to_multiset(),
        ),
        middle.item_order() matches Some(m) ==> r@ == option_seq(front) + m + back.remaining(),
{
    let ghost f = option_seq(front);
    let ghost bag = middle.item_bag();
    let ghost b = back.remaining();
    let mut out: Vec<T> = Vec::new();
    match front {
        Some(x) => out.push(x),
        None => {},
    }
    proof {
        assert(out@ =~= f);
    }
    let mut mid = middle.into_items();
    let ghost m = mid@;
    out.append(&mut mid);
    let mut rest = drain_items(back);
    out.append(&mut rest);
    proof {
        assert(out@ =~= f + m + b);
        lemma_recovered_in_order(f, m, b);
        lemma_option_seq_bag(front);
    }
    out
}

/// The state captured by a [`CollectError`]: the rest of the iterator, the items collected
/// before the failure, and the error.
#[derive(Debug)]
pub struct CollectErrorData<I, C, E> {
    /// The iterator, positioned after the last item taken.
    pub remain: I,
    /// The items collected before the failure.
    pub collected: C,
    /// The error that occurred.
    pub error: E,
}

/// An error that occurs when collecting an iterator into a collection fails.
///
/// It keeps everything needed to recover the items of the iterator: the item refused by the
/// error (if any), the items collected, and the rest of the iterator. The data is read-only:
/// it may be borrowed through `Deref`, or moved out with [`CollectError::into_data`].
#[derive(Debug)]
pub struct CollectError<I, C, E> {
    data: Box<CollectErrorData<I, C, E>>,
}

impl<I, C, E> View for CollectError<I, C, E> {
    type V = CollectErrorData<I, C, E>;

    closed spec fn view(&self) -> CollectErrorData<I, C, E> {
        *self.data
    }
}

impl<I, C, E> CollectError<I, C, E> {
    /// Creates an error from the rest of the iterator, the collected items and the error.
    pub fn new(remain: I, collected: C, error: E) -> (r: Self)
        ensures
            r@.remain == remain,
            r@.collected == collected,
            r@.error == error,
    {
        CollectError { data: Box::new(CollectErrorData { remain, collected, error }) }
    }

    /// Consumes the error, returning its data.
    pub fn into_data(self) -> (r: CollectErrorData<I, C, E>)
        ensures
            r == self@,
    {
        *self.data
    }
}

impl<I, C, E> std::ops::Deref for CollectError<I, C, E> {
    type Target = CollectErrorData<I, C, E>;

    fn deref(&self) -> (r: &CollectErrorData<I, C, E>)
        ensures
            *r == self@,
    {
        &self.data
    }
}

impl<T, I: ItemIterator<Item = T>, C: IntoItems<Item = T>, E: ErrorItemProvider<Item = T>> CollectError<
    I,
    C,
    E,
> {
    /// Consumes the error and returns every item taken from the source iterator: the item
    /// refused by the error (if any), then the collected items, then the rest of the iterator.
    pub fn into_items(self) -> (r: Vec<T>)
        ensures
            recovered_in_order(
                r@,
                option_seq(self@.error.rejected()),
                self@.collected.item_bag(),
                self@.remain.remaining(),
            ),
            r@.to_multiset() =~= option_bag(self@.error.rejected()).add(
                self@.collected.item_bag(),
            ).add(self@.remain.remaining().to_multiset()),
            self@.collected.item_order() matches Some(m) ==> r@ == option_seq(
                self@.error.rejected(),
            ) + m + self@.remain.remaining(),
    {
        let data = self.into_data();
        let item = data.error.into_item();
        recover_items(item, data.collected, data.remain)
    }
}

} // verus!
