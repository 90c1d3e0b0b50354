//! Error types returned by failable collection operations.

/// Errors and traits relating to collections with a capacity.
pub mod capacity;

/// Errors relating to collections that refuse colliding items.
pub mod collision;

/// The capacity error reported by [`CollectionError`].
pub mod capacity_error;

mod capacity_mismatch;
mod collect_error;
mod collection_collision;
mod collection_error;
mod error_item_provider;
mod exceeds_capacity;
mod item_collision;
mod item_count_mismatch;
mod key_collision;
mod one_of2;
mod result_collection_error;
mod tuple_collection_error;
mod tuple_extend_error;
mod tuple_extension_error;
mod unzip_error;
mod value_collision;
mod extend_error;

pub use collect_error::{
    lemma_option_seq_bag, lemma_recovered_in_order, option_seq, recover_items, recovered_in_order,
    CollectError, CollectErrorData,
};
pub use collection_collision::{CollectionCollision, CollectionCollisionData};
pub use collection_error::{CollectionError, CollectionErrorData};
pub use error_item_provider::ErrorItemProvider;
pub use exceeds_capacity::ExceedsCapacity;
pub use item_collision::ItemCollision;
pub use item_count_mismatch::ItemCountMismatch;
pub use key_collision::KeyCollision;
pub use one_of2::OneOf2;
pub use result_collection_error::{ResultCollectError, ResultCollectErrorData};
pub use tuple_collection_error::{
    TupleCollectionError, TupleCollectionErrorSide, TupleCollectionErrorSideData,
};
pub use tuple_extend_error::{TupleExtendError, TupleExtendErrorData};
pub use tuple_extension_error::{
    TupleExtensionError, TupleExtensionErrorData, TupleExtensionErrorSide,
};
pub use unzip_error::{UnzipError, UnzipErrorData};
pub use value_collision::ValueCollision;
pub use capacity_mismatch::{CapacityMismatch, MismatchKind};
pub use extend_error::{ExtendError, ExtendErrorData};

pub use capacity::CapacityError;
pub use collision::Collision;
