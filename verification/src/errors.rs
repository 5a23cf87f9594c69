//! Error taxonomy of the library.
//!
//! Every fallible operation returns a discriminated result built from these
//! types; nothing is swallowed or retried internally.

use vstd::prelude::*;

verus! {

/// Failure to construct a client from its endpoint configuration.
///
/// Surfaced at construction time only; no partial client is ever returned.
#[derive(Clone, Copy, Debug, PartialEq, Eq, Structural)]
pub enum ConfigurationError {
    /// The endpoint list was empty.
    Empty,
    /// Some endpoint string does not parse as a URI.
    InvalidAddress,
}

/// A server response that violates the documented protocol contract.
///
/// Non-recoverable for the transaction concerned: it is moved to its aborted
/// state locally, without a server round trip.
#[derive(Clone, Copy, Debug, PartialEq, Eq, Structural)]
pub enum ProtocolViolation {
    /// A mutate call was attempted on a read-only transaction.
    ReadOnly,
    /// A successful mutate reply carried no transaction context.
    MissingContext,
}

/// Any failure an operation on a transaction or client can surface.
#[derive(Debug, PartialEq, Eq)]
pub enum DgraphError {
    /// A network or transport failure, with the transport's own message.
    /// Never retried internally; the transaction is left in its prior state.
    Transport(String),
    /// The server response violated the protocol contract.
    Protocol(ProtocolViolation),
    /// An incoming context does not belong to the merging transaction's
    /// lineage; the local context is left unmodified.
    TxnMismatch,
    /// The server detected a conflicting concurrent write at commit time.
    /// Recoverable by retrying the whole unit of work.
    Conflict,
    /// A state-changing call reached a transaction that was already
    /// consumed by a terminal call.
    UsedTransaction,
}

} // verus!
