use vstd::prelude::*;

use crate::errors::capacity::{CapacityError, CapacityErrorKind};
use crate::iter::ItemIterator;
use crate::size_hint::SizeHint;

verus! {

/// Fills a fixed number of slots, in order, and hands the items back with an error when not
/// all of them were filled.
#[derive(Debug)]
pub struct SliceGuard<T> {
    slots: usize,
    items: Vec<T>,
}

impl<T> View for SliceGuard<T> {
    type V = Seq<T>;

    closed spec fn view(&self) -> Seq<T> {
        self.items@
    }
}

impl<T> SliceGuard<T> {
    /// No more items are held than there are slots.
    #[verifier::type_invariant]
    spec fn within_slots(&self) -> bool {
        self.items@.len() <= self.slots
    }

    /// The number of slots.
    pub closed spec fn slot_count(&self) -> usize {
        self.slots
    }

    /// A guard over `slots` empty slots.
    pub fn new(slots: usize) -> (r: Self)
        ensures
            r.slot_count() == slots,
            r@ == Seq::<T>::empty(),
    {
        SliceGuard { slots, items: Vec::new() }
    }

    /// The items, when every slot is filled; otherwise the items with an `Underflow` error
    /// against exactly the number of slots.
    pub fn disarm(self) -> (r: Result<Vec<T>, (Vec<T>, CapacityError<T>)>)
        ensures
            r is Ok <==> self@.len() == self.slot_count(),
            r matches Ok(v) ==> v@ == self@,
            r matches Err(p) ==> {
                &&& p.0@ == self@
                &&& p.1.capacity@ == (self.slot_count(), Some(self.slot_count()))
                &&& p.1.kind == (CapacityErrorKind::<T>::Underflow { count: self@.len() as usize })
            },
    {
        proof {
            use_type_invariant(&self);
        }
        let filled = self.items.len();
        if filled != self.slots {
            let error = CapacityError::underflow(SizeHint::exact(self.slots), filled);
            Err((self.drain(), error))
        } else {
            Ok(self.items)
        }
    }

    /// Moves the items out, in order.
    pub fn drain(self) -> (r: Vec<T>)
        ensures
            r@ == self@,
    {
        self.items
    }

    /// Writes items from `iter` into the free slots in order until they are full or `iter`
    /// runs out; the items that do not fit are not taken.
    pub fn extend<I: ItemIterator<Item = T>>(&mut self, iter: I)
        ensures
            final(self).slot_count() == old(self).slot_count(),
            final(self)@ == old(self)@ + iter.remaining().take(
                if iter.remaining().len() <= old(self).slot_count() - old(self)@.len() {
                    iter.remaining().len() as int
                } else {
                    old(self).slot_count() - old(self)@.len()
                },
            ),
    {
        proof {
            use_type_invariant(&*self);
        }
        let ghost s = iter.remaining();
        let ghost start = self.items@;
        let mut iter = iter;
        let ghost mut i: int = 0;
        proof {
            assert(start + s.take(0) =~= start);
        }
        while self.items.len() < self.slots
            invariant
                0 <= i <= s.len(),
                self.slots == old(self).slots,
                self.items@ == start + s.take(i),
                self.items@.len() <= self.slots,
                iter.remaining() == s.skip(i),
            ensures
                0 <= i <= s.len(),
                self.slots == old(self).slots,
                self.items@ == start + s.take(i),
                self.items@.len() == self.slots || i == s.len(),
            decreases s.len() - i,
        {
            match iter.next() {
                None => {
                    break;
                },
                Some(item) => {
                    proof {
                        assert(item == s[i]);
                        assert(iter.remaining() =~= s.skip(i + 1));
                    }
                    let mut items = Vec::new();
                    std::mem::swap(&mut items, &mut self.items);
                    items.push(item);
                    self.items = items;
                    proof {
                        assert(start + s.take(i + 1) =~= (start + s.take(i)).push(item));
                        i = i + 1;
                    }
                },
            }
        }
    }
}

} // verus!
