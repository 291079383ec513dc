//! The analytic engine: what it is configured with and how it is opened.

pub mod builder_laws;
pub mod config;
pub mod error;
pub mod opening_laws;
pub mod setup;
pub mod setup_laws;
pub mod storage;
pub mod storage_laws;
pub mod wal;
