pub mod array_vec;
pub mod arrays;
pub mod ensure_empty;
pub mod macros;
pub mod result_iter;
pub mod tuples;
pub mod maps;
pub mod sets;
