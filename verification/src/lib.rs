//! Compiled-artifact cache for a WASM smart-contract execution host.
//!
//! The crate turns contract bytecode plus a compilation configuration into a
//! versioned fingerprint, encodes compile outcomes (artifacts as well as
//! remembered failures) as binary records, and orchestrates lookups through an
//! in-process bounded recency cache and an externally supplied persistent
//! key/value store.

pub mod backend;
pub mod codec;
pub mod errors;
pub mod hash;
pub mod key;
pub mod orchestrator;
pub mod port;
pub mod recency;
pub mod record;
pub mod types;
