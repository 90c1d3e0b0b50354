pub mod btree_set;
pub mod hash_set;
pub mod index_set;
pub mod hashbrown_set;
