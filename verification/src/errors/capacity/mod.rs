mod collect;
mod error;
mod extend;
mod traits;

pub use error::{CapacityError, CapacityErrorKind};
pub use traits::{Capacity, DefaultValue, FixedCap, RemainingCap};
