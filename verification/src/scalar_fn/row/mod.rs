//! Scalar functions computed one row at a time.

pub mod bytes;
pub mod element;
pub mod primitive;
pub mod tuple;
pub mod tuple_impls;
pub mod row_fn;
pub mod row_laws;
pub mod typed;
pub mod policy;
pub mod result;
pub mod batch;
pub mod batch_laws;
pub mod kernel;
pub mod deferred;
pub mod sink;
