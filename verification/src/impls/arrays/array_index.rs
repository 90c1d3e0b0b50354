use vstd::prelude::*;

verus! {

/// A value that can be incremented by one in place, handing back its value from before.
pub trait PostInc: Copy {
    /// Whether the value can be incremented without overflowing.
    spec fn can_post_inc(&self) -> bool;

    /// The value one above this one.
    spec fn incremented(&self) -> Self;

    /// Increments the value, returning the value from before.
    fn post_inc(&mut self) -> (r: Self)
        requires
            old(self).can_post_inc(),
        ensures
            r == *old(self),
            *final(self) == old(self).incremented(),
    ;
}

impl PostInc for usize {
    open spec fn can_post_inc(&self) -> bool {
        *self < usize::MAX
    }

    open spec fn incremented(&self) -> usize {
        (*self + 1) as usize
    }

    fn post_inc(&mut self) -> (r: usize) {
        let previous = *self;
        *self += 1;
        previous
    }
}

/// An index into an array of `N` items, counting up from zero.
#[derive(Debug)]
pub struct ArrayIndex<const N: usize>(usize);

impl<const N: usize> View for ArrayIndex<N> {
    type V = usize;

    closed spec fn view(&self) -> usize {
        self.0
    }
}

impl<const N: usize> ArrayIndex<N> {
    /// An index at zero.
    pub fn new() -> (r: Self)
        ensures
            r@ == 0,
    {
        ArrayIndex(0)
    }

    /// The current index.
    pub fn get(&self) -> (r: usize)
        ensures
            r == self@,
    {
        self.0
    }

    /// Returns the current index and moves to the next one, when the current index is within
    /// the array; otherwise returns `None` and stays.
    pub fn try_post_inc(&mut self) -> (r: Option<usize>)
        ensures
            old(self)@ < N ==> r == Some(old(self)@) && final(self)@ == old(self)@ + 1,
            old(self)@ >= N ==> r is None && final(self)@ == old(self)@,
    {
        if self.0 < N {
            Some(self.0.post_inc())
        } else {
            None
        }
    }
}

impl<const N: usize> Default for ArrayIndex<N> {
    fn default() -> (r: Self)
        ensures
            r@ == 0,
    {
        Self::new()
    }
}

impl<const N: usize> std::ops::Deref for ArrayIndex<N> {
    type Target = usize;

    fn deref(&self) -> (r: &usize)
        ensures
            *r == self@,
    {
        &self.0
    }
}

} // verus!
