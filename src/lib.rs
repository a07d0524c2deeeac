//! A local task runtime: parameter parsing and validation, placeholder
//! substitution, command dispatch planning, the task-instance lifecycle and
//! the instance store.
pub mod config;
pub mod error;
pub mod ids;
pub mod kv;
pub mod params;
pub mod report;
pub mod store;
pub mod system;
pub mod task;
pub mod text;
