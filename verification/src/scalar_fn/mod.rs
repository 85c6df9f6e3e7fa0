//! Scalar functions.

pub mod array_metadata;
pub mod cost;
pub mod fns;
pub mod options;
pub mod row;
pub mod strict;
pub mod strict_laws;
pub mod strict_rows;
pub mod vtable;
