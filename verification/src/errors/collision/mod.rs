mod collect;
mod error;
mod extend;

pub use error::Collision;
