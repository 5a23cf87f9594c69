//! Request and response shapes exchanged with the server.
//!
//! The library builds requests and interprets replies; carrying them over the
//! wire is the embedding application's job. A reply is handed back to the
//! library as an event: either the server's answer, or the transport failure
//! that prevented one.

use vstd::prelude::*;

use crate::context::TxnContext;

verus! {

/// One batch of writes: quads to add, quads to delete, the commit-now flag
/// and the start timestamp stamped on submission.
#[derive(Debug, PartialEq, Eq)]
pub struct Mutation {
    pub set_nquads: Vec<u8>,
    pub del_nquads: Vec<u8>,
    pub commit_now: bool,
    pub start_ts: u64,
}

impl Mutation {
    /// An empty mutation: nothing to add, nothing to delete, not yet stamped.
    pub fn new() -> (m: Mutation)
        ensures
            m.set_nquads@ == Seq::<u8>::empty(),
            m.del_nquads@ == Seq::<u8>::empty(),
            !m.commit_now,
            m.start_ts == 0,
    {
        Mutation { set_nquads: Vec::new(), del_nquads: Vec::new(), commit_now: false, start_ts: 0 }
    }
}

/// The result of one mutate call: the permanent identifier assigned to each
/// blank node of the mutation (an empty mapping is valid), and the updated
/// transaction context the server returned with it.
#[derive(Debug, PartialEq, Eq)]
pub struct Assigned {
    pub uids: Vec<(String, String)>,
    pub context: Option<TxnContext>,
}

/// A read-only query request: the query text and its variables, stamped with
/// the transaction's start timestamp and its consistency flags.
#[derive(Debug, PartialEq, Eq)]
pub struct Request {
    pub query: String,
    pub vars: Vec<(String, String)>,
    pub start_ts: u64,
    pub read_only: bool,
    pub best_effort: bool,
}

/// A credential-login request.
#[derive(Debug, PartialEq, Eq)]
pub struct LoginRequest {
    pub user_id: String,
    pub password: String,
}

/// The token a successful login returns.
#[derive(Debug, PartialEq, Eq)]
pub struct LoginToken {
    pub access_jwt: String,
    pub refresh_jwt: String,
}

/// What came back from a mutate round trip.
#[derive(Debug, PartialEq, Eq)]
pub enum MutateEvent {
    /// The server answered the call.
    Reply(Assigned),
    /// The transport failed before an answer arrived, with its message.
    Transport(String),
}

/// What came back from a commit-or-abort round trip.
#[derive(Debug, PartialEq, Eq)]
pub enum CommitEvent {
    /// The server acknowledged the request.
    Done,
    /// The server detected a conflicting concurrent write.
    Conflict,
    /// The transport failed before an answer arrived, with its message.
    Transport(String),
}

} // verus!
