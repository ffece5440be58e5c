//! Authenticated ingestion gateway core.
//!
//! The library holds the verified logic of a small submission receiver: a
//! bearer-token verifier, a collision-resistant identifier generator, the
//! write-then-publish spooling protocol (modelled and proved atomic), the
//! JSON answers the endpoints return, and the process-wide metrics counters.
//! Network and filesystem plumbing live outside the library and only carry
//! plain values to and from it.

pub mod auth;
pub mod endpoint;
pub mod ident;
pub mod json;
pub mod metrics;
pub mod spool;
pub mod text;
