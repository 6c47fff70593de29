//! Passive traffic aggregation: protocol and address classification of
//! dissected frames, a deduplicated store of who talks to whom, and the
//! agent/collector replication rules built on it.
pub mod address;
pub mod capture;
pub mod laws;
pub mod protocol;
pub mod replication;
pub mod store;
pub mod text;
