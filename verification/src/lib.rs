//! An in-memory book store.
//!
//! The store holds a sequence of records, each with an identifier the store
//! assigns, a title and an author. It offers five operations: list all
//! records, get one by id, create, update by id and delete by id. Identifiers
//! are assigned as one more than the current record count, so an id freed by
//! a deletion can be handed out again.
//!
//! [`store`] holds the sequential collection and its contracts, [`reply`] the
//! request-level outcomes and their mapping to status codes, [`shared`] a
//! concurrency-safe store behind a verified reader-writer lock, and [`laws`]
//! proofs of the properties the operations obey together.

pub mod laws;
pub mod reply;
pub mod shared;
pub mod store;
