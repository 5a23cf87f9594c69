//! The transaction state machine.
//!
//! A transaction is created by a client in its fresh state, issues zero or
//! more mutate calls, and is consumed by exactly one terminal call: commit,
//! mutate-and-commit-now, or discard. Each operation that needs a server
//! round trip is split in two: a request builder that checks the call is
//! legal and produces the wire request, and a function that applies the
//! server's reply (or the transport failure) to the transaction. The
//! embedding application carries the request over the network and hands the
//! outcome back; every decision in between is made, and verified, here.

use vstd::prelude::*;

use crate::context::{commit_after_start, merge_accepts, merged, TxnContext, TxnContextView};
use crate::errors::{DgraphError, ProtocolViolation};
use crate::pool::Channel;
use crate::proto::{Assigned, CommitEvent, MutateEvent, Mutation, Request};

verus! {

/// The consistency variant a transaction was created with.
#[derive(Clone, Copy, Debug, PartialEq, Eq, Structural)]
pub enum TxnKind {
    /// The default variant: reads a fresh snapshot and may mutate.
    Plain,
    /// Rejects every mutate call.
    ReadOnly,
    /// Read-only, and additionally permitted to read a possibly stale
    /// snapshot without coordinating a fresh start timestamp.
    BestEffort,
}

/// Where a transaction stands in its lifecycle.
#[derive(Clone, Copy, Debug, PartialEq, Eq, Structural)]
pub enum TxnStatus {
    /// No terminal call has been issued; mutate calls are legal.
    Active,
    /// A commit request has been handed out and its reply is awaited.
    CommitPending,
    /// An abort request has been handed out and its reply is awaited.
    DiscardPending,
    /// Terminal: the transaction committed.
    Committed,
    /// Terminal: the transaction aborted.
    Aborted,
}

/// What every transaction variant owns: the channel it is bound to and its
/// server-tracked context.
#[derive(Debug, PartialEq, Eq)]
pub struct TxnState {
    pub channel: Channel,
    pub context: TxnContext,
}

/// Extra state of a fresh transaction: only its consistency variant.
#[derive(Debug, PartialEq, Eq)]
pub struct Base {
    pub kind: TxnKind,
}

/// Extra state of a transaction that may mutate: its variant, whether any
/// mutation has succeeded, and where it stands in its lifecycle.
#[derive(Debug, PartialEq, Eq)]
pub struct Mutated {
    pub base: Base,
    pub mutated: bool,
    pub status: TxnStatus,
}

/// A transaction, parameterized by the extra state of its variant.
#[derive(Debug, PartialEq, Eq)]
pub struct TxnVariant<E> {
    pub state: TxnState,
    pub extra: E,
}

/// A fresh transaction as a client hands it out.
pub type Txn = TxnVariant<Base>;

/// A transaction that may mutate.
pub type MutatedTxn = TxnVariant<Mutated>;

impl TxnVariant<Base> {
    /// A fresh transaction of the given variant, bound to `channel`, with an
    /// empty context: the start timestamp is assigned by the server on the
    /// first interaction, not locally.
    pub fn new(channel: Channel, kind: TxnKind) -> (t: Txn)
        ensures
            t.extra.kind == kind,
            t.state.channel.endpoint@ == channel.endpoint@,
            t.state.context@ == (TxnContextView {
                start_ts: 0,
                commit_ts: 0,
                aborted: false,
                keys: Seq::<Seq<char>>::empty(),
                preds: Seq::<Seq<char>>::empty(),
            }),
    {
        TxnVariant { state: TxnState { channel, context: TxnContext::new() }, extra: Base { kind } }
    }

    /// The query request this transaction would send: the query text and
    /// variables, stamped with the transaction's start timestamp and the
    /// consistency flags of its variant. Queries do not change transaction
    /// state.
    pub fn query_request(&self, query: String, vars: Vec<(String, String)>) -> (q: Request)
        ensures
            q.query == query,
            q.vars == vars,
            q.start_ts == self.state.context.start_ts,
            q.read_only == (self.extra.kind is ReadOnly || self.extra.kind is BestEffort),
            q.best_effort == self.extra.kind is BestEffort,
    {
        let read_only = match self.extra.kind {
            TxnKind::Plain => false,
            TxnKind::ReadOnly => true,
            TxnKind::BestEffort => true,
        };
        let best_effort = match self.extra.kind {
            TxnKind::BestEffort => true,
            _ => false,
        };
        Request { query, vars, start_ts: self.state.context.start_ts, read_only, best_effort }
    }

    /// Moves the fresh transaction into its mutable form, in which mutate
    /// and terminal calls are issued. Nothing about the transaction changes:
    /// no mutation has happened yet and the lifecycle starts active.
    pub fn mutated(self) -> (t: MutatedTxn)
        ensures
            t.state == self.state,
            t.extra.base == self.extra,
            !t.extra.mutated,
            t.extra.status is Active,
    {
        TxnVariant {
            state: self.state,
            extra: Mutated { base: self.extra, mutated: false, status: TxnStatus::Active },
        }
    }
}

/// Full specification of building the wire mutation for a mutate call on
/// `pre`: rejected on a consumed transaction, rejected with the read-only
/// protocol violation on a read-only or best-effort transaction, and
/// otherwise `mu` with the commit-now flag forced to `commit_now` and the
/// transaction's start timestamp stamped on.
pub open spec fn mutation_request_spec(
    pre: MutatedTxn,
    mu: Mutation,
    commit_now: bool,
    r: Result<Mutation, DgraphError>,
) -> bool {
    if !pre.active() {
        r == Err::<Mutation, DgraphError>(DgraphError::UsedTransaction)
    } else if pre.read_only() {
        r == Err::<Mutation, DgraphError>(DgraphError::Protocol(ProtocolViolation::ReadOnly))
    } else {
        {
            &&& r matches Ok(m)
            &&& m.set_nquads == mu.set_nquads
            &&& m.del_nquads == mu.del_nquads
            &&& m.commit_now == commit_now
            &&& m.start_ts == pre.state.context.start_ts
        }
    }
}

/// Full specification of applying the outcome of a mutate round trip with
/// the given commit-now flag to a transaction: what the call returns, and
/// how the transaction moves from `pre` to `post`.
///
/// A consumed transaction rejects the call unchanged; so does a read-only or
/// best-effort transaction, with the read-only protocol violation. A
/// transport failure leaves the transaction in its prior state. A reply
/// without a context violates the server contract: the transaction is moved
/// to its aborted state locally. A reply whose context is not of this
/// transaction's lineage is rejected, the transaction unchanged. Otherwise
/// the context is merged in, the transaction counts as mutated, and it stays
/// active — or, when the mutation was sent with commit-now, is implicitly
/// committed.
pub open spec fn mutate_transition(
    pre: MutatedTxn,
    post: MutatedTxn,
    event: MutateEvent,
    commit_now: bool,
    r: Result<Assigned, DgraphError>,
) -> bool {
    if !pre.active() {
        r == Err::<Assigned, DgraphError>(DgraphError::UsedTransaction) && post == pre
    } else if pre.read_only() {
        r == Err::<Assigned, DgraphError>(DgraphError::Protocol(ProtocolViolation::ReadOnly))
            && post == pre
    } else {
        match event {
            MutateEvent::Transport(msg) => r == Err::<Assigned, DgraphError>(
                DgraphError::Transport(msg),
            ) && post == pre,
            MutateEvent::Reply(a) => match a.context {
                Option::None => {
                    &&& r == Err::<Assigned, DgraphError>(
                        DgraphError::Protocol(ProtocolViolation::MissingContext),
                    )
                    &&& post.extra.status is Aborted
                    &&& post.extra.mutated == pre.extra.mutated
                    &&& post.extra.base == pre.extra.base
                    &&& post.state.channel == pre.state.channel
                    &&& post.state.context@ == (TxnContextView {
                        aborted: true,
                        ..pre.state.context@
                    })
                },
                Option::Some(c) => {
                    if merge_accepts(pre.state.context@, c@) {
                        &&& r == Ok::<Assigned, DgraphError>(a)
                        &&& post.extra.status == (if commit_now {
                            TxnStatus::Committed
                        } else {
                            TxnStatus::Active
                        })
                        &&& post.extra.mutated
                        &&& post.extra.base == pre.extra.base
                        &&& post.state.channel == pre.state.channel
                        &&& post.state.context@ == merged(pre.state.context@, c@)
                    } else {
                        r == Err::<Assigned, DgraphError>(DgraphError::TxnMismatch) && post == pre
                    }
                },
            },
        }
    }
}

/// Law: every mutate transition preserves context well-formedness. Whenever
/// the transaction's context keeps its commit timestamp strictly after its
/// start timestamp, and any context the server's reply carries does too, so
/// does the context the transaction holds after the call — whatever the call
/// returned. Hence after any sequence of mutate calls and a commit, a commit
/// timestamp the context carries strictly exceeds its start timestamp,
/// since no terminal call changes the context's timestamps.
pub proof fn lemma_mutate_preserves_commit_after_start(
    pre: MutatedTxn,
    post: MutatedTxn,
    event: MutateEvent,
    commit_now: bool,
    r: Result<Assigned, DgraphError>,
)
    requires
        mutate_transition(pre, post, event, commit_now, r),
        commit_after_start(pre.state.context@),
        match event {
            MutateEvent::Reply(a) => match a.context {
                Option::Some(c) => commit_after_start(c@),
                Option::None => true,
            },
            MutateEvent::Transport(_) => true,
        },
    ensures
        commit_after_start(post.state.context@),
{
    if pre.active() && !pre.read_only() {
        match event {
            MutateEvent::Reply(a) => match a.context {
                Option::Some(c) => {
                    if merge_accepts(pre.state.context@, c@) {
                        crate::context::lemma_merge_preserves_commit_after_start(
                            pre.state.context@,
                            c@,
                        );
                    }
                },
                Option::None => {},
            },
            MutateEvent::Transport(_) => {},
        }
    }
}

impl TxnVariant<Mutated> {
    /// Whether no terminal call has been issued yet.
    pub open spec fn active(self) -> bool {
        self.extra.status is Active
    }

    /// Whether this transaction rejects mutate calls.
    pub open spec fn read_only(self) -> bool {
        self.extra.base.kind is ReadOnly || self.extra.base.kind is BestEffort
    }

    /// The query request this transaction would send; see
    /// [`TxnVariant::<Base>::query_request`].
    pub fn query_request(&self, query: String, vars: Vec<(String, String)>) -> (q: Request)
        ensures
            q.query == query,
            q.vars == vars,
            q.start_ts == self.state.context.start_ts,
            q.read_only == (self.extra.base.kind is ReadOnly || self.extra.base.kind
                is BestEffort),
            q.best_effort == self.extra.base.kind is BestEffort,
    {
        let read_only = match self.extra.base.kind {
            TxnKind::Plain => false,
            TxnKind::ReadOnly => true,
            TxnKind::BestEffort => true,
        };
        let best_effort = match self.extra.base.kind {
            TxnKind::BestEffort => true,
            _ => false,
        };
        Request { query, vars, start_ts: self.state.context.start_ts, read_only, best_effort }
    }

    /// The wire mutation for a mutate call: `mu` stamped with the
    /// transaction's start timestamp, the commit-now flag forced off.
    ///
    /// Rejected without a network call on a consumed transaction and, with
    /// the read-only protocol violation, on a read-only or best-effort
    /// transaction.
    pub fn mutate_request(&self, mu: Mutation) -> (r: Result<Mutation, DgraphError>)
        ensures
            mutation_request_spec(*self, mu, false, r),
    {
        self.do_mutation_request(mu, false)
    }

    /// The wire mutation for a mutate-and-commit-now call: as
    /// [`Self::mutate_request`], but with the commit-now flag forced on, so
    /// that the server durably commits the write as part of the same call.
    pub fn mutate_and_commit_now_request(&self, mu: Mutation) -> (r: Result<
        Mutation,
        DgraphError,
    >)
        ensures
            mutation_request_spec(*self, mu, true, r),
    {
        self.do_mutation_request(mu, true)
    }

    /// Builds the wire mutation for either mutate flavour.
    fn do_mutation_request(&self, mu: Mutation, commit_now: bool) -> (r: Result<
        Mutation,
        DgraphError,
    >)
        ensures
            mutation_request_spec(*self, mu, commit_now, r),
    {
        match self.extra.status {
            TxnStatus::Active => {},
            _ => {
                return Err(DgraphError::UsedTransaction);
            },
        }
        match self.extra.base.kind {
            TxnKind::ReadOnly | TxnKind::BestEffort => {
                return Err(DgraphError::Protocol(ProtocolViolation::ReadOnly));
            },
            TxnKind::Plain => {},
        }
        let mut m = mu;
        m.commit_now = commit_now;
        m.start_ts = self.state.context.start_ts;
        Ok(m)
    }

    /// Applies the outcome of a mutate round trip; the transaction stays
    /// active on success. The exact transition is [`mutate_transition`] with
    /// the commit-now flag off.
    pub fn mutate(&mut self, event: MutateEvent) -> (r: Result<Assigned, DgraphError>)
        ensures
            mutate_transition(*old(self), *final(self), event, false, r),
    {
        self.do_mutation(event, false)
    }

    /// Applies the outcome of a mutate-and-commit-now round trip; a
    /// successful reply also consumes the transaction, implicitly committed,
    /// and no further terminal call is needed or permitted. The exact
    /// transition is [`mutate_transition`] with the commit-now flag on.
    pub fn mutate_and_commit_now(&mut self, event: MutateEvent) -> (r: Result<
        Assigned,
        DgraphError,
    >)
        ensures
            mutate_transition(*old(self), *final(self), event, true, r),
    {
        self.do_mutation(event, true)
    }

    /// Applies a mutate outcome for either mutate flavour; `commit_now` says
    /// which status a success leaves behind.
    fn do_mutation(&mut self, event: MutateEvent, commit_now: bool) -> (r: Result<
        Assigned,
        DgraphError,
    >)
        ensures
            mutate_transition(*old(self), *final(self), event, commit_now, r),
    {
        match self.extra.status {
            TxnStatus::Active => {},
            _ => {
                return Err(DgraphError::UsedTransaction);
            },
        }
        match self.extra.base.kind {
            TxnKind::ReadOnly | TxnKind::BestEffort => {
                return Err(DgraphError::Protocol(ProtocolViolation::ReadOnly));
            },
            TxnKind::Plain => {},
        }
        match event {
            MutateEvent::Transport(msg) => Err(DgraphError::Transport(msg)),
            MutateEvent::Reply(a) => {
                match &a.context {
                    None => {
                        self.state.context.aborted = true;
                        self.extra.status = TxnStatus::Aborted;
                        Err(DgraphError::Protocol(ProtocolViolation::MissingContext))
                    },
                    Some(src) => {
                        match self.state.context.merge(src) {
                            Ok(()) => {
                                self.extra.mutated = true;
                                if commit_now {
                                    self.extra.status = TxnStatus::Committed;
                                }
                                Ok(a)
                            },
                            Err(e) => Err(e),
                        }
                    },
                }
            },
        }
    }

    /// Issues the commit.
    ///
    /// A transaction that never mutated commits locally: the call returns
    /// success with no request to send and no network call, and the
    /// transaction is consumed. A mutated transaction hands out a copy of
    /// its current context as the commit-or-abort request; the server's
    /// reply goes to [`Self::finish_commit`].
    pub fn commit(&mut self) -> (r: Result<Option<TxnContext>, DgraphError>)
        ensures
            !old(self).active() ==> ({
                &&& r == Err::<Option<TxnContext>, DgraphError>(DgraphError::UsedTransaction)
                &&& *final(self) == *old(self)
            }),
            old(self).active() && !old(self).extra.mutated ==> ({
                &&& r matches Ok(req) && req is None
                &&& final(self).extra.status is Committed
                &&& final(self).extra.mutated == old(self).extra.mutated
                &&& final(self).extra.base == old(self).extra.base
                &&& final(self).state == old(self).state
            }),
            old(self).active() && old(self).extra.mutated ==> ({
                &&& r matches Ok(req) && req matches Some(c) && c@ == old(self).state.context@
                &&& final(self).extra.status is CommitPending
                &&& final(self).extra.mutated == old(self).extra.mutated
                &&& final(self).extra.base == old(self).extra.base
                &&& final(self).state == old(self).state
            }),
    {
        match self.extra.status {
            TxnStatus::Active => {},
            _ => {
                return Err(DgraphError::UsedTransaction);
            },
        }
        if !self.extra.mutated {
            self.extra.status = TxnStatus::Committed;
            return Ok(None);
        }
        let ctx = self.state.context.duplicate();
        self.extra.status = TxnStatus::CommitPending;
        Ok(Some(ctx))
    }

    /// Applies the server's reply to a commit request.
    ///
    /// Success commits the transaction; a reported write conflict aborts it
    /// and surfaces as the recoverable conflict error. On a transport
    /// failure the transaction stays where it was, awaiting the commit
    /// reply, so the caller may send the same request again.
    pub fn finish_commit(&mut self, event: CommitEvent) -> (r: Result<(), DgraphError>)
        ensures
            !(old(self).extra.status is CommitPending) ==> ({
                &&& r == Err::<(), DgraphError>(DgraphError::UsedTransaction)
                &&& *final(self) == *old(self)
            }),
            old(self).extra.status is CommitPending ==> match event {
                CommitEvent::Done => {
                    &&& r == Ok::<(), DgraphError>(())
                    &&& final(self).extra.status is Committed
                    &&& final(self).extra.mutated == old(self).extra.mutated
                    &&& final(self).extra.base == old(self).extra.base
                    &&& final(self).state == old(self).state
                },
                CommitEvent::Conflict => {
                    &&& r == Err::<(), DgraphError>(DgraphError::Conflict)
                    &&& final(self).extra.status is Aborted
                    &&& final(self).extra.mutated == old(self).extra.mutated
                    &&& final(self).extra.base == old(self).extra.base
                    &&& final(self).state == old(self).state
                },
                CommitEvent::Transport(msg) => {
                    &&& r == Err::<(), DgraphError>(DgraphError::Transport(msg))
                    &&& *final(self) == *old(self)
                },
            },
    {
        match self.extra.status {
            TxnStatus::CommitPending => {},
            _ => {
                return Err(DgraphError::UsedTransaction);
            },
        }
        match event {
            CommitEvent::Done => {
                self.extra.status = TxnStatus::Committed;
                Ok(())
            },
            CommitEvent::Conflict => {
                self.extra.status = TxnStatus::Aborted;
                Err(DgraphError::Conflict)
            },
            CommitEvent::Transport(msg) => Err(DgraphError::Transport(msg)),
        }
    }

    /// Discards the transaction.
    ///
    /// The context's aborted flag is set; abort is sticky. A transaction
    /// that never mutated is discarded locally: success, no request to send,
    /// zero network calls. A mutated transaction hands out a copy of its
    /// aborted context as the commit-or-abort request, so the server can
    /// release its locks and conflict markers; the reply goes to
    /// [`Self::finish_discard`].
    pub fn discard(&mut self) -> (r: Result<Option<TxnContext>, DgraphError>)
        ensures
            !old(self).active() ==> ({
                &&& r == Err::<Option<TxnContext>, DgraphError>(DgraphError::UsedTransaction)
                &&& *final(self) == *old(self)
            }),
            old(self).active() ==> ({
                &&& final(self).state.context@ == (TxnContextView {
                    aborted: true,
                    ..old(self).state.context@
                })
                &&& final(self).extra.mutated == old(self).extra.mutated
                &&& final(self).extra.base == old(self).extra.base
                &&& final(self).state.channel == old(self).state.channel
            }),
            old(self).active() && !old(self).extra.mutated ==> ({
                &&& r matches Ok(req) && req is None
                &&& final(self).extra.status is Aborted
            }),
            old(self).active() && old(self).extra.mutated ==> ({
                &&& r matches Ok(req) && req matches Some(c) && c@ == (TxnContextView {
                    aborted: true,
                    ..old(self).state.context@
                })
                &&& final(self).extra.status is DiscardPending
            }),
    {
        match self.extra.status {
            TxnStatus::Active => {},
            _ => {
                return Err(DgraphError::UsedTransaction);
            },
        }
        self.state.context.aborted = true;
        if !self.extra.mutated {
            self.extra.status = TxnStatus::Aborted;
            return Ok(None);
        }
        let ctx = self.state.context.duplicate();
        self.extra.status = TxnStatus::DiscardPending;
        Ok(Some(ctx))
    }

    /// Applies the server's reply to an abort request.
    ///
    /// Any server answer leaves the transaction aborted; a transport failure
    /// leaves it awaiting the abort reply, so the caller may send the same
    /// request again.
    pub fn finish_discard(&mut self, event: CommitEvent) -> (r: Result<(), DgraphError>)
        ensures
            !(old(self).extra.status is DiscardPending) ==> ({
                &&& r == Err::<(), DgraphError>(DgraphError::UsedTransaction)
                &&& *final(self) == *old(self)
            }),
            old(self).extra.status is DiscardPending ==> match event {
                CommitEvent::Done => {
                    &&& r == Ok::<(), DgraphError>(())
                    &&& final(self).extra.status is Aborted
                    &&& final(self).extra.mutated == old(self).extra.mutated
                    &&& final(self).extra.base == old(self).extra.base
                    &&& final(self).state == old(self).state
                },
                CommitEvent::Conflict => {
                    &&& r == Err::<(), DgraphError>(DgraphError::Conflict)
                    &&& final(self).extra.status is Aborted
                    &&& final(self).extra.mutated == old(self).extra.mutated
                    &&& final(self).extra.base == old(self).extra.base
                    &&& final(self).state == old(self).state
                },
                CommitEvent::Transport(msg) => {
                    &&& r == Err::<(), DgraphError>(DgraphError::Transport(msg))
                    &&& *final(self) == *old(self)
                },
            },
    {
        match self.extra.status {
            TxnStatus::DiscardPending => {},
            _ => {
                return Err(DgraphError::UsedTransaction);
            },
        }
        match event {
            CommitEvent::Done => {
                self.extra.status = TxnStatus::Aborted;
                Ok(())
            },
            CommitEvent::Conflict => {
                self.extra.status = TxnStatus::Aborted;
                Err(DgraphError::Conflict)
            },
            CommitEvent::Transport(msg) => Err(DgraphError::Transport(msg)),
        }
    }
}

} // verus!
