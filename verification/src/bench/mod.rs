//! Benchmark suites: where their data lies, how it is made, and how engines register it.

pub mod command;
pub mod create_sql;
pub mod format;
pub mod format_laws;
pub mod heap_profile;
pub mod mounts;
pub mod path;
pub mod path_laws;
pub mod phases;
pub mod phases_laws;
pub mod pipeline;
pub mod pipeline_laws;
pub mod public_bi;
pub mod public_bi_dataset;
pub mod public_bi_laws;
pub mod random_access;
pub mod render_laws;
pub mod script_laws;
pub mod setup;
pub mod setup_laws;
pub mod ssb;
pub mod ssb_laws;
pub mod statement_laws;
pub mod step_laws;
pub mod storage;
pub mod storage_laws;
pub mod take;
pub mod tpch;
