//! Linear-algebra primitives: a dense matrix over a generic element type and
//! free functions on vectors held as plain sequences.
mod error;
pub mod grid;
pub mod laws;
mod matrix;
mod vector;

pub use error::Error;
pub use matrix::Matrix;
pub use vector::{all_orthogonal, change_base, orthogonal, vector_dot_product, vector_sum};
