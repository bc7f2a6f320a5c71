//! Ledger read/submit context of a blockchain full node.
//!
//! This library mediates between client-facing query logic and three
//! lower-level collaborators: a versioned ledger store, an execution-state
//! resolver, and a transaction-submission queue (mempool).  It produces
//! consistent, ledger-version-scoped views of chain state, transactions,
//! events, and blocks, and correlates asynchronous submission results back
//! to their callers.
//!
//! The store records a flat, strictly increasing sequence of transaction
//! versions and has no first-class block record; block identity is derived
//! by scanning version boundaries and decoding the block-metadata state
//! write of the boundary transaction.

pub mod types;
pub mod error;
pub mod transaction;
pub mod ledger;
pub mod reader;
pub mod block;
pub mod materialize;
pub mod submission;
pub mod context;
pub mod memory;
