use std::collections::VecDeque;
use vstd::multiset::Multiset;
use vstd::prelude::*;

use crate::size_hint::hint_contains;

verus! {

/// The sequence that results from taking one item off the front of `before`, as `r` reports it:
/// `None` when nothing was left, the first item otherwise.
pub open spec fn next_step<T>(before: Seq<T>, after: Seq<T>, r: Option<T>) -> bool {
    match r {
        Some(x) => {
            &&& before.len() > 0
            &&& x == before[0]
            &&& after == before.drop_first()
        },
        None => before.len() == 0 && after.len() == 0,
    }
}

/// A source of items, read one at a time from the front.
///
/// `remaining` is the finite sequence of items still to come, in order. `hint` is the pair of
/// bounds the source reports on how many items remain, as `Iterator::size_hint` does; whenever
/// the source reports its bounds, they contain the number of items still to come.
pub trait ItemIterator: Sized {
    type Item;

    /// The items still to come, in order.
    ///
    /// A source written outside verified code may leave this undefined: it then claims that no
    /// item remains, and nothing is proved of it.
    open spec fn remaining(&self) -> Seq<Self::Item> {
        Seq::empty()
    }

    /// The bounds the source reports on the number of items still to come.
    ///
    /// A source written outside verified code may leave this undefined: it then reports no
    /// bounds.
    open spec fn hint(&self) -> (usize, Option<usize>) {
        (0usize, None::<usize>)
    }

    /// The bounds the source will report once it has taken its next item.
    ///
    /// A source written outside verified code may leave this undefined: it then reports no
    /// bounds after a step.
    open spec fn hint_after_next(&self) -> (usize, Option<usize>) {
        (0usize, None::<usize>)
    }

    /// Takes the next item, or `None` when no item remains.
    fn next(&mut self) -> (r: Option<Self::Item>)
        ensures
            next_step(old(self).remaining(), final(self).remaining(), r),
            final(self).hint() == old(self).hint_after_next(),
    ;

    /// The reported bounds on the number of items still to come; the number of items still to
    /// come lies within them.
    fn size_hint(&self) -> (r: (usize, Option<usize>))
        ensures
            r == self.hint(),
            hint_contains(r, self.remaining().len() as int),
    ;
}

/// An iterator over items held in memory, yielded in order.
///
/// It reports the exact number of remaining items, unless the size was hidden with
/// [`SeqIter::hide_size`], in which case it reports `(0, None)`.
#[derive(Debug, PartialEq, Eq)]
pub struct SeqIter<T> {
    items: VecDeque<T>,
    hidden: bool,
}

impl<T> SeqIter<T> {
    /// Whether the size of this iterator has been hidden.
    pub closed spec fn size_hidden(&self) -> bool {
        self.hidden
    }

    /// Creates an iterator over the items of `items`, in order.
    pub fn new(items: Vec<T>) -> (r: Self)
        ensures
            r.remaining() == items@,
            !r.size_hidden(),
            r.hint() == (items@.len() as usize, Some(items@.len() as usize)),
    {
        let mut items = items;
        let ghost all = items@;
        let mut queue: VecDeque<T> = VecDeque::new();
        while items.len() > 0
            invariant
                all == items@ + queue@,
            decreases items.len(),
        {
            let x = items.pop().unwrap();
            queue.push_front(x);
            proof {
                assert(all =~= items@ + queue@);
            }
        }
        proof {
            assert(queue@ =~= all);
        }
        SeqIter { items: queue, hidden: false }
    }

    /// The same iterator, reporting `(0, None)` as its bounds from now on.
    pub fn hide_size(self) -> (r: Self)
        ensures
            r.remaining() == self.remaining(),
            r.size_hidden(),
            r.hint() == (0usize, None::<usize>),
    {
        SeqIter { items: self.items, hidden: true }
    }

    /// The number of items still to come.
    pub fn len(&self) -> (r: usize)
        ensures
            r == self.remaining().len(),
    {
        self.items.len()
    }

    /// Whether no item remains.
    pub fn is_empty(&self) -> (r: bool)
        ensures
            r == (self.remaining().len() == 0),
    {
        self.items.len() == 0
    }

    /// Consumes the iterator, returning the remaining items in order.
    pub fn into_vec(self) -> (r: Vec<T>)
        ensures
            r@ == self.remaining(),
    {
        let mut items = self.items;
        let ghost all = items@;
        let mut out: Vec<T> = Vec::new();
        while items.len() > 0
            invariant
                all == out@ + items@,
            decreases items.len(),
        {
            let x = items.pop_front().unwrap();
            out.push(x);
            proof {
                assert(all =~= out@ + items@);
            }
        }
        proof {
            assert(out@ =~= all);
        }
        out
    }
}

impl<T> ItemIterator for SeqIter<T> {
    type Item = T;

    closed spec fn remaining(&self) -> Seq<T> {
        self.items@
    }

    open spec fn hint(&self) -> (usize, Option<usize>) {
        if self.size_hidden() {
            (0usize, None::<usize>)
        } else {
            (self.remaining().len() as usize, Some(self.remaining().len() as usize))
        }
    }

    /// One fewer item, or none when nothing is left; no bounds when the size is hidden.
    open spec fn hint_after_next(&self) -> (usize, Option<usize>) {
        let n = if self.remaining().len() > 0 {
            self.remaining().len() - 1
        } else {
            0
        };
        if self.size_hidden() {
            (0usize, None::<usize>)
        } else {
            (n as usize, Some(n as usize))
        }
    }

    /// Takes the front item; a hidden size stays hidden.
    fn next(&mut self) -> (r: Option<T>)
        ensures
            final(self).size_hidden() == old(self).size_hidden(),
    {
        let r = self.items.pop_front();
        proof {
            if r is Some {
                assert(self.items@ =~= old(self).items@.drop_first());
            }
        }
        r
    }

    fn size_hint(&self) -> (r: (usize, Option<usize>)) {
        if self.hidden {
            (0, None)
        } else {
            let n = self.items.len();
            (n, Some(n))
        }
    }
}


/// The items of an optional value, as a multiset.
pub open spec fn option_bag<T>(o: Option<T>) -> Multiset<T> {
    match o {
        Some(x) => Multiset::singleton(x),
        None => Multiset::empty(),
    }
}

/// A collection whose items can be counted and moved out, for recovering the items of a failed
/// operation.
pub trait IntoItems: Sized {
    type Item;

    /// The items held, as a multiset.
    spec fn item_bag(&self) -> Multiset<Self::Item>;

    /// An empty collection.
    fn empty() -> (r: Self)
        ensures
            r.item_bag() =~= Multiset::empty(),
    ;

    /// The items in the order `into_items` moves them out, for a collection that keeps its items
    /// in one order; `None` for a collection whose order is its own affair.
    open spec fn item_order(&self) -> Option<Seq<Self::Item>> {
        None
    }

    /// Moves the items out, in the collection's own order.
    fn into_items(self) -> (r: Vec<Self::Item>)
        ensures
            r@.to_multiset() =~= self.item_bag(),
            self.item_order() matches Some(s) ==> r@ == s,
    ;
}

/// A collection whose items can be counted.
pub trait ItemCount: IntoItems {
    /// The number of items held.
    fn item_count(&self) -> (r: usize)
        ensures
            r == self.item_bag().len(),
    ;
}

/// An iterator that knows exactly how many items remain.
pub trait ExactLen: ItemIterator {
    /// The number of items still to come.
    fn exact_len(&self) -> (r: usize)
        ensures
            r == self.remaining().len(),
    ;
}

impl<T> ExactLen for SeqIter<T> {
    fn exact_len(&self) -> (r: usize) {
        self.len()
    }
}

impl<T> IntoItems for Vec<T> {
    type Item = T;

    open spec fn item_bag(&self) -> Multiset<T> {
        self@.to_multiset()
    }

    open spec fn item_order(&self) -> Option<Seq<T>> {
        Some(self@)
    }

    fn empty() -> (r: Self) {
        proof {
            broadcast use vstd::seq_lib::group_to_multiset_ensures;
        }
        Vec::new()
    }

    fn into_items(self) -> (r: Vec<T>) {
        self
    }
}

impl<T> ItemCount for Vec<T> {
    fn item_count(&self) -> (r: usize) {
        proof {
            broadcast use vstd::seq_lib::group_to_multiset_ensures;
        }
        self.len()
    }
}

impl<T> IntoItems for SeqIter<T> {
    type Item = T;

    open spec fn item_bag(&self) -> Multiset<T> {
        self.remaining().to_multiset()
    }

    open spec fn item_order(&self) -> Option<Seq<T>> {
        Some(self.remaining())
    }

    fn empty() -> (r: Self) {
        proof {
            broadcast use vstd::seq_lib::group_to_multiset_ensures;
        }
        SeqIter::new(Vec::new())
    }

    fn into_items(self) -> (r: Vec<T>) {
        self.into_vec()
    }
}

impl<T> ItemCount for SeqIter<T> {
    fn item_count(&self) -> (r: usize) {
        proof {
            broadcast use vstd::seq_lib::group_to_multiset_ensures;
        }
        self.len()
    }
}

/// Drains `iter`, returning its remaining items in order.
pub fn drain_items<I: ItemIterator>(iter: I) -> (r: Vec<I::Item>)
    ensures
        r@ == iter.remaining(),
{
    let ghost all = iter.remaining();
    let mut iter = iter;
    let mut out: Vec<I::Item> = Vec::new();
    loop
        invariant
            all == out@ + iter.remaining(),
        ensures
            out@ == all,
        decreases iter.remaining().len(),
    {
        match iter.next() {
            Some(x) => {
                out.push(x);
                proof {
                    assert(all =~= out@ + iter.remaining());
                }
            },
            None => {
                proof {
                    assert(all =~= out@);
                }
                break;
            },
        }
    }
    out
}

} // verus!
