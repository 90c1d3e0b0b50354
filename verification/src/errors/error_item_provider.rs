use vstd::prelude::*;

verus! {

/// An error that may hold an item that was taken from an iterator but refused by a collection.
pub trait ErrorItemProvider: Sized {
    /// The type of the refused item.
    type Item;

    /// The refused item held by this error, if any.
    spec fn rejected(&self) -> Option<Self::Item>;

    /// Consumes the error and returns the refused item, if any.
    fn into_item(self) -> (r: Option<Self::Item>)
        ensures
            r == self.rejected(),
    ;

    /// Borrows the refused item, if any.
    fn item(&self) -> (r: Option<&Self::Item>)
        ensures
            match r {
                Some(x) => self.rejected() == Some(*x),
                None => self.rejected() is None,
            },
    ;
}

} // verus!
