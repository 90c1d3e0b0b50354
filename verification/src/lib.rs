//! Collections that are built from, or extended by, iterators in ways that may fail: on a
//! colliding key, or when the number of items does not fit the collection's capacity. Every
//! failure hands back everything that was taken from the iterator.

use vstd::prelude::*;

pub mod iter;
pub mod size_hint;

pub use iter::{ItemIterator, SeqIter};
pub use size_hint::{InvalidSizeHint, SizeHint};
pub mod collect_failable_ext;
pub mod traits;

pub use collect_failable_ext::FailableCollectExt;
pub use traits::{TryExtend, TryExtendOne, TryExtendSafe, TryFromIterator};
pub mod errors;
pub mod impls;

pub use errors::{
    CapacityError, CollectError, CollectionCollision, CollectionError, Collision, ExtendError,
    ItemCollision, ItemCountMismatch, KeyCollision,
};
pub use impls::array_vec::ArrayVec;
pub use impls::arrays::{ArrayIndex, Drain, InitGuard, IntoArrayError, PartialArray, PostInc, SliceGuard};
pub use impls::ensure_empty::{EnsureEmpty, NotEmpty};
pub use impls::maps::hashbrown_map::HashbrownMap;
pub use impls::result_iter::{IterState, ResultIter};
pub use impls::sets::hashbrown_set::HashbrownSet;
pub use iter::{IntoItems, ItemCount};
