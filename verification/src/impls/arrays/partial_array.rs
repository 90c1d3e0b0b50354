use vstd::multiset::Multiset;
use vstd::prelude::*;

use crate::errors::capacity::{
    CapacityError, CapacityErrorKind, DefaultValue, FixedCap, RemainingCap,
};
use crate::iter::{ExactLen, IntoItems, ItemCount, ItemIterator, SeqIter};
use crate::size_hint::{lemma_same_bounds_same_hint, SizeHint};

verus! {

/// `<[T; N]>::try_from(Vec<T>)`: the vector's items as an array when it holds exactly `N`
/// items; otherwise the vector itself, unchanged.
#[verifier::external_body]
fn vec_into_array<T, const N: usize>(v: Vec<T>) -> (r: Result<[T; N], Vec<T>>)
    ensures
        r is Ok <==> v@.len() == N,
        r matches Ok(a) ==> a@ == v@,
        r matches Err(w) ==> w@ == v@,
{
    <[T; N]>::try_from(v)
}

/// The items taken so far while filling an array of `N` items, in order; at most `N` of them.
/// It results from the failed collection of an array.
#[derive(Debug)]
pub struct PartialArray<T, const N: usize> {
    items: Vec<T>,
}

impl<T, const N: usize> View for PartialArray<T, N> {
    type V = Seq<T>;

    closed spec fn view(&self) -> Seq<T> {
        self.items@
    }
}

impl<T, const N: usize> PartialArray<T, N> {
    /// A partial array holds at most `N` items.
    #[verifier::type_invariant]
    spec fn holds_at_most_n(&self) -> bool {
        self.items@.len() <= N
    }

    /// An empty partial array.
    pub fn new() -> (r: Self)
        ensures
            r@ == Seq::<T>::empty(),
    {
        PartialArray { items: Vec::new() }
    }

    /// Appends `item`, or returns it when the array already holds `N` items.
    pub fn try_push(&mut self, item: T) -> (r: Result<(), T>)
        ensures
            r is Ok <==> old(self)@.len() < N,
            r is Ok ==> final(self)@ == old(self)@.push(item),
            r matches Err(x) ==> x == item && final(self)@ == old(self)@,
    {
        proof {
            use_type_invariant(&*self);
        }
        if self.items.len() >= N {
            Err(item)
        } else {
            let mut items = Vec::new();
            std::mem::swap(&mut items, &mut self.items);
            items.push(item);
            self.items = items;
            Ok(())
        }
    }

    /// The number of items held, at most `N`.
    pub fn len(&self) -> (r: usize)
        ensures
            r == self@.len(),
            r <= N,
    {
        proof {
            use_type_invariant(self);
        }
        self.items.len()
    }

    /// Whether no item is held.
    pub fn is_empty(&self) -> (r: bool)
        ensures
            r == (self@.len() == 0),
    {
        self.items.len() == 0
    }

    /// The items held, in order.
    pub fn initialized(&self) -> (r: &[T])
        ensures
            r@ == self@,
    {
        self.items.as_slice()
    }

    /// Moves the items out, in order, as an iterator.
    pub fn into_iter(self) -> (r: Drain<T, N>)
        ensures
            r.remaining() == self@,
    {
        Drain { rest: SeqIter::new(self.items) }
    }

    /// The full array, when all `N` items are held; otherwise an [`IntoArrayError`] holding this
    /// partial array and an `Underflow` error.
    pub fn try_into_array(self) -> (r: Result<[T; N], IntoArrayError<T, N>>)
        ensures
            r is Ok <==> self@.len() == N,
            r matches Ok(a) ==> a@ == self@,
            r matches Err(e) ==> {
                &&& e.partial_array == self
                &&& e.error.capacity@ == (N, Some(N))
                &&& e.error.kind == (CapacityErrorKind::<T>::Underflow { count: self@.len() as usize })
            },
    {
        proof {
            use_type_invariant(&self);
        }
        if self.items.len() == N {
            match vec_into_array::<T, N>(self.items) {
                Ok(a) => Ok(a),
                Err(_) => {
                    proof {
                        assert(false);
                    }
                    vstd::pervasive::unreached()
                },
            }
        } else {
            Err(IntoArrayError::new(self))
        }
    }
}

/// The outcome of converting `v` into a full array: the array of its items when it holds `N` of
/// them, otherwise an [`IntoArrayError`] holding `v` and an `Underflow` against exactly `N`.
pub open spec fn into_array_outcome<T, const N: usize>(v: PartialArray<T, N>) -> Result<
    [T; N],
    IntoArrayError<T, N>,
> {
    if v@.len() == N {
        Ok(choose|a: [T; N]| a@ == v@)
    } else {
        Err(
            IntoArrayError {
                partial_array: v,
                error: CapacityError {
                    capacity: choose|h: SizeHint| h@ == (N, Some(N)),
                    kind: CapacityErrorKind::Underflow { count: v@.len() as usize },
                },
            },
        )
    }
}

/// Converts a partial array into a full array, when it holds all `N` items.
impl<T, const N: usize> TryFrom<PartialArray<T, N>> for [T; N] {
    type Error = IntoArrayError<T, N>;

    fn try_from(partial_array: PartialArray<T, N>) -> (r: Result<[T; N], IntoArrayError<T, N>>)
        ensures
            r is Ok <==> partial_array@.len() == N,
            r matches Ok(a) ==> a@ == partial_array@,
            r matches Err(e) ==> {
                &&& e.partial_array == partial_array
                &&& e.error.capacity@ == (N, Some(N))
                &&& e.error.kind == (CapacityErrorKind::<T>::Underflow {
                    count: partial_array@.len() as usize,
                })
            },
    {
        let ghost v = partial_array;
        let r = partial_array.try_into_array();
        proof {
            broadcast use vstd::array::group_array_axioms;

            if r is Ok {
                let a = r->Ok_0;
                let c = choose|c: [T; N]| c@ == v@;
                assert(a =~= c);
            } else {
                let e = r->Err_0;
                let h = choose|h: SizeHint| h@ == (N, Some(N));
                lemma_same_bounds_same_hint(e.error.capacity, h);
            }
        }
        r
    }
}

impl<T, const N: usize> vstd::std_specs::convert::TryFromSpecImpl<PartialArray<T, N>> for [T; N] {
    open spec fn obeys_try_from_spec() -> bool {
        true
    }

    open spec fn try_from_spec(v: PartialArray<T, N>) -> Result<[T; N], IntoArrayError<T, N>> {
        into_array_outcome::<T, N>(v)
    }
}

impl<T, const N: usize> Default for PartialArray<T, N> {
    fn default() -> (r: Self)
        ensures
            r@ == Seq::<T>::empty(),
    {
        Self::new()
    }
}

impl<T, const N: usize> std::ops::Deref for PartialArray<T, N> {
    type Target = [T];

    fn deref(&self) -> (r: &[T])
        ensures
            r@ == self@,
    {
        self.items.as_slice()
    }
}

impl<T, const N: usize> RemainingCap for PartialArray<T, N> {
    open spec fn remaining_cap_hint(&self) -> (usize, Option<usize>) {
        (0usize, Some((N - self@.len()) as usize))
    }

    /// At most the number of free slots.
    fn remaining_cap(&self) -> (r: SizeHint) {
        proof {
            use_type_invariant(self);
        }
        SizeHint::at_most(N - self.items.len())
    }
}

impl<T, const N: usize> FixedCap for PartialArray<T, N> {
    open spec fn cap_hint() -> (usize, Option<usize>) {
        (N, Some(N))
    }

    /// Exactly `N`.
    fn cap() -> (r: SizeHint) {
        SizeHint::exact(N)
    }
}

/// An empty one.
impl<T, const N: usize> DefaultValue for PartialArray<T, N> {
    open spec fn is_default_value(&self) -> bool {
        self@.len() == 0
    }

    fn default_value() -> (r: Self) {
        Self::new()
    }
}

impl<T, const N: usize> IntoItems for PartialArray<T, N> {
    type Item = T;

    open spec fn item_bag(&self) -> Multiset<T> {
        self@.to_multiset()
    }

    open spec fn item_order(&self) -> Option<Seq<T>> {
        Some(self@)
    }

    fn empty() -> (r: Self) {
        proof {
            broadcast use vstd::seq_lib::group_to_multiset_ensures;
        }
        Self::new()
    }

    fn into_items(self) -> (r: Vec<T>) {
        self.items
    }
}

impl<T, const N: usize> ItemCount for PartialArray<T, N> {
    fn item_count(&self) -> (r: usize) {
        proof {
            broadcast use vstd::seq_lib::group_to_multiset_ensures;
        }
        self.items.len()
    }
}

/// The error returned when a [`PartialArray`] is converted into a full array but holds fewer
/// than `N` items.
#[derive(Debug)]
pub struct IntoArrayError<T, const N: usize> {
    /// The partial array that could not be converted.
    pub partial_array: PartialArray<T, N>,
    /// Why the array was not full: an `Underflow` against exactly `N` items.
    pub error: CapacityError<T>,
}

impl<T, const N: usize> IntoArrayError<T, N> {
    /// Creates the error for `partial_array`, which holds fewer than `N` items.
    pub fn new(partial_array: PartialArray<T, N>) -> (r: Self)
        requires
            partial_array@.len() < N,
        ensures
            r.partial_array == partial_array,
            r.error.capacity@ == (N, Some(N)),
            r.error.kind == (CapacityErrorKind::<T>::Underflow { count: partial_array@.len() as usize }),
    {
        let count = partial_array.len();
        let error = CapacityError::underflow_of::<PartialArray<T, N>>(count);
        IntoArrayError { partial_array, error }
    }
}

/// An iterator that moves the items out of a [`PartialArray`], in order.
#[derive(Debug)]
pub struct Drain<T, const N: usize> {
    rest: SeqIter<T>,
}

impl<T, const N: usize> ItemIterator for Drain<T, N> {
    type Item = T;

    closed spec fn remaining(&self) -> Seq<T> {
        self.rest.remaining()
    }

    /// Exactly the number of items left.
    open spec fn hint(&self) -> (usize, Option<usize>) {
        (self.remaining().len() as usize, Some(self.remaining().len() as usize))
    }

    /// Exactly one fewer item, or none when nothing is left.
    open spec fn hint_after_next(&self) -> (usize, Option<usize>) {
        let n = if self.remaining().len() > 0 {
            self.remaining().len() - 1
        } else {
            0
        };
        (n as usize, Some(n as usize))
    }

    fn next(&mut self) -> (r: Option<T>) {
        let r = self.rest.next();
        proof {
            if r is Some {
                assert(self.remaining() == old(self).remaining().drop_first());
            }
        }
        r
    }

    fn size_hint(&self) -> (r: (usize, Option<usize>)) {
        let n = self.rest.len();
        (n, Some(n))
    }
}

impl<T, const N: usize> ExactLen for Drain<T, N> {
    fn exact_len(&self) -> (r: usize) {
        self.rest.len()
    }
}

} // verus!
