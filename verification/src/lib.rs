//! Setting up the analytic engine of a CeresDB node, and the messages that
//! the node exchanges with the meta service of its cluster.

pub mod analytic_engine;
pub mod meta_client;
