//! A scoped client for a versioned key/value secret store, with the schedule
//! that keeps its authentication token alive.

pub mod client;
pub mod config;
pub mod error;
pub mod lineage;
pub mod scheduler;
