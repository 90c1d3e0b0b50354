use vstd::prelude::*;

verus! {

/// An error indicating that a duplicate key was found in the provided data.
#[derive(Debug, PartialEq, Eq)]
pub struct KeyCollision<K> {
    /// The key that caused the collision.
    pub key: K,
}

impl<K> KeyCollision<K> {
    /// Creates a key collision error for `key`.
    pub fn new(key: K) -> (r: Self)
        ensures
            r.key == key,
    {
        KeyCollision { key }
    }
}

} // verus!
