//! Expression trees over scalar functions.

pub mod eval;
pub mod fusion;
pub mod laws;
pub mod locality;
pub mod shape_laws;
pub mod simplify;
pub mod tree;
