//! Client-side library for a remote graph-data service with optimistic,
//! timestamp-based concurrency control.
//!
//! The library covers the transaction lifecycle protocol and the
//! connection/channel management that backs it: endpoint pools with
//! round-robin selection, the transaction state machine, and the merger
//! that reconciles server-returned transaction contexts. The network round
//! trips themselves are left to the embedding application: every operation
//! that needs one is split into a request builder and a function that applies
//! the server's reply to the transaction.

pub mod client;
pub mod context;
pub mod errors;
pub mod pool;
pub mod proto;
pub mod txn;
