//! The built-in scalar functions.

pub mod arithmetic;
pub mod binary;
pub mod boolean;
pub mod byte_length;
pub mod compare;
pub mod decimal;
pub mod extreme_laws;
pub mod list_min_max;
pub mod list_transform;
pub mod not;
pub mod numeric;
pub mod operator_laws;
pub mod operators;
pub mod simd;
pub mod zip;
