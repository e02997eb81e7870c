//! Resource pools whose new resources are chosen by an allocation strategy
//! that runs in a script sandbox, and committed under an optimistic check of
//! the pool's version.
//!
//! - `document`, `json`: JSON payloads as compact text, read by `serde_json`.
//! - `pool`: pools and resources.
//! - `sandbox`: the text that the sandbox runs, and what its output yields.
//! - `commit`, `sql`: the steps of the commit transaction and the statement
//!   that writes a batch, for whoever holds the store.
//! - `store`: the store in memory, with atomic commits.
//! - `allocation`: the allocation use case around one run of the sandbox.
//! - `laws`: what holds of the store across commits.

pub mod allocation;
pub mod commit;
pub mod document;
pub mod error;
pub mod json;
pub mod laws;
pub mod pool;
pub mod sandbox;
pub mod sql;
pub mod store;
