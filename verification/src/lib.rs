//! Release-resolution and safe-install pipeline for the upstream `duckdb`
//! command-line binary: pick the right release asset for the running
//! platform, plan a safe extraction of the downloaded archive, and drive the
//! install as a sequential state machine.
pub mod archive;
pub mod entry_name;
pub mod errors;
pub mod installer;
pub mod metadata;
pub mod selector;
pub mod text;
