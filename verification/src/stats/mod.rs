//! Statistics and the rewrites that use them.

pub mod session;
