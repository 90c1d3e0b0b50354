//! Arrays of a fixed number of items, and the helpers that fill them.

pub mod partial_array;

pub use partial_array::{Drain, IntoArrayError, PartialArray};
pub mod array;

pub use array::{array_collected, try_from_iterator_erased};
pub mod array_index;
pub mod init_guard;
pub mod slice_guard;

pub use array_index::{ArrayIndex, PostInc};
pub use init_guard::InitGuard;
pub use slice_guard::SliceGuard;
