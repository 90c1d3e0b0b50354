pub mod btree_map;
pub mod hash_map;
pub mod index_map;
pub mod hashbrown_map;
