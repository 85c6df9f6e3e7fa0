//! Row-wise scalar functions over nullable columns, and the planning rules of a benchmark harness.

pub mod array;
pub mod array_laws;
pub mod bench;
pub mod bits;
pub mod chars;
pub mod chars_laws;
pub mod dtype;
pub mod dtype_laws;
pub mod error;
pub mod expr;
pub mod location;
pub mod mask;
pub mod native;
pub mod order;
pub mod order_laws;
pub mod proto;
pub mod scalar_fn;
pub mod sort;
pub mod stats;
pub mod text;
pub mod value;
pub mod wide;
