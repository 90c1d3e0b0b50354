use vstd::prelude::*;

use crate::errors::ItemCountMismatch;
use crate::iter::ItemIterator;
use crate::traits::{TryExtend, TryExtendSafe};

verus! {

/// Fills a fixed number of slots, in order, and checks that all of them were filled.
#[derive(Debug)]
pub struct InitGuard<T> {
    slots: usize,
    items: Vec<T>,
}

impl<T> View for InitGuard<T> {
    type V = Seq<T>;

    closed spec fn view(&self) -> Seq<T> {
        self.items@
    }
}

impl<T> InitGuard<T> {
    /// No more items are held than there are slots.
    #[verifier::type_invariant]
    spec fn within_slots(&self) -> bool {
        self.items@.len() <= self.slots
    }

    /// The number of slots.
    pub closed spec fn slot_count(&self) -> usize {
        self.slots
    }

    /// A guard over `slots` empty slots.
    pub fn new(slots: usize) -> (r: Self)
        ensures
            r.slot_count() == slots,
            r@ == Seq::<T>::empty(),
    {
        InitGuard { slots, items: Vec::new() }
    }

    /// The items, when every slot is filled; otherwise an [`ItemCountMismatch`] of the number of
    /// slots against the number filled.
    pub fn try_disarm(self) -> (r: Result<Vec<T>, ItemCountMismatch>)
        ensures
            r is Ok <==> self@.len() >= self.slot_count(),
            r matches Ok(v) ==> v@ == self@,
            r matches Err(e) ==> e.expected == self.slot_count() && e.actual == self@.len(),
    {
        if self.items.len() < self.slots {
            Err(ItemCountMismatch::new(self.slots, self.items.len()))
        } else {
            Ok(self.items)
        }
    }

    /// Takes items from `iter` into the free slots until they are full or `iter` runs out,
    /// without taking an item that would not fit; returns the items taken.
    fn take_fitting<I: ItemIterator<Item = T>>(&self, iter: &mut I) -> (r: Vec<T>)
        ensures
            ({
                let s = old(iter).remaining();
                let free = self.slot_count() - self@.len();
                let k = if s.len() <= free {
                    s.len() as int
                } else {
                    free
                };
                &&& r@ == s.take(k)
                &&& final(iter).remaining() == s.skip(k)
            }),
    {
        proof {
            use_type_invariant(self);
        }
        let ghost s = iter.remaining();
        let free = self.slots - self.items.len();
        let mut taken: Vec<T> = Vec::new();
        let ghost mut i: int = 0;
        proof {
            assert(s.take(0) =~= Seq::<T>::empty());
        }
        while taken.len() < free
            invariant
                0 <= i <= s.len(),
                taken@ == s.take(i),
                taken@.len() <= free,
                iter.remaining() == s.skip(i),
            ensures
                0 <= i <= s.len(),
                taken@ == s.take(i),
                iter.remaining() == s.skip(i),
                taken@.len() == free || i == s.len(),
            decreases s.len() - i,
        {
            match iter.next() {
                None => {
                    break;
                },
                Some(item) => {
                    proof {
                        assert(item == s[i]);
                        assert(iter.remaining() =~= s.skip(i + 1));
                    }
                    taken.push(item);
                    proof {
                        assert(s.take(i + 1) =~= s.take(i).push(item));
                        i = i + 1;
                    }
                },
            }
        }
        taken
    }

    /// Appends `more`, which fits in the free slots.
    fn append_fitting(&mut self, more: Vec<T>)
        requires
            old(self)@.len() + more@.len() <= old(self).slot_count(),
        ensures
            final(self)@ == old(self)@ + more@,
            final(self).slot_count() == old(self).slot_count(),
    {
        let mut more = more;
        let mut items = Vec::new();
        std::mem::swap(&mut items, &mut self.items);
        items.append(&mut more);
        self.items = items;
    }
}

/// Fills the free slots from an iterator; an item left over once they are full is an error.
/// The slots filled before that stay filled.
impl<T, I: ItemIterator<Item = T>> TryExtend<I> for InitGuard<T> {
    type Error = ItemCountMismatch;

    open spec fn extend_requires(pre: Self, iter: I) -> bool {
        pre.slot_count() < usize::MAX
    }

    open spec fn extend_ensures(
        pre: Self,
        iter: I,
        post: Self,
        r: Result<(), ItemCountMismatch>,
    ) -> bool {
        let s = iter.remaining();
        let free = pre.slot_count() - pre@.len();
        &&& post.slot_count() == pre.slot_count()
        &&& r is Ok <==> s.len() <= free
        &&& r is Ok ==> post@ == pre@ + s
        &&& r matches Err(e) ==> {
            &&& post@ == pre@ + s.take(free)
            &&& e.expected == pre.slot_count()
            &&& e.actual == pre.slot_count() + 1
        }
    }

    /// Writes items into the free slots in order; when they are full and an item remains, the
    /// error counts one item more than the slots.
    fn try_extend(&mut self, iter: I) -> (r: Result<(), ItemCountMismatch>) {
        let ghost s = iter.remaining();
        proof {
            use_type_invariant(&*self);
        }
        let mut iter = iter;
        let taken = self.take_fitting(&mut iter);
        proof {
            assert(s.take(s.len() as int) =~= s);
        }
        self.append_fitting(taken);
        match iter.next() {
            None => Ok(()),
            Some(_) => {
                proof {
                    use_type_invariant(&*self);
                }
                Err(ItemCountMismatch::new(self.slots, self.items.len() + 1))
            },
        }
    }
}

/// Fills the free slots from an iterator only when every item fits; otherwise the guard is left
/// as it was.
impl<T, I: ItemIterator<Item = T>> TryExtendSafe<I> for InitGuard<T> {
    type Error = ItemCountMismatch;

    open spec fn extend_safe_ensures(
        pre: Self,
        iter: I,
        post: Self,
        r: Result<(), ItemCountMismatch>,
    ) -> bool {
        let s = iter.remaining();
        let free = pre.slot_count() - pre@.len();
        &&& r is Ok <==> s.len() <= free
        &&& r is Ok ==> post@ == pre@ + s && post.slot_count() == pre.slot_count()
        &&& r matches Err(e) ==> e.expected == pre.slot_count() && e.actual == pre.slot_count() + 1
    }

    /// Takes items for the free slots, and keeps them only when no item remains after.
    fn try_extend_safe(&mut self, iter: I) -> (r: Result<(), ItemCountMismatch>) {
        let ghost s = iter.remaining();
        proof {
            use_type_invariant(&*self);
        }
        let mut iter = iter;
        let taken = self.take_fitting(&mut iter);
        match iter.next() {
            None => {
                proof {
                    assert(s.take(s.len() as int) =~= s);
                }
                self.append_fitting(taken);
                Ok(())
            },
            Some(_) => Err(ItemCountMismatch::new(self.slots, self.slots + 1)),
        }
    }
}

} // verus!
