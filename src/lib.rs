//! Distributed leases over a conditional-write key-value store with
//! per-item expiry.
//!
//! The library holds the decisions of the lease protocol: the conditions under
//! which a store write succeeds, the process-wide registry that serialises
//! acquisition of a key within one participant, the lease handle with its
//! extension and release steps, the client's acquire loop, and the
//! conditional requests a remote store is sent. Sleeping,
//! spawning and talking to a real store are left to the caller, who performs
//! the actions these functions return and hands the outcomes back.
pub mod client;
pub mod config;
pub mod laws;
pub mod lease;
pub mod registry;
pub mod request;
pub mod schema;
pub mod store;
