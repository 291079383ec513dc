//! The client of the meta service: its own types and the messages that they are
//! exchanged as.

pub mod cluster;
pub mod endpoint;
pub mod error;
pub mod laws;
pub mod meta_service;
pub mod request_laws;
pub mod requests;
pub mod response_laws;
pub mod responses;
pub mod route_entries;
pub mod types;
