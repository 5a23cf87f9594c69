//! Transaction contexts and the merger that reconciles them.
//!
//! A transaction context is the server-tracked metadata of one transaction:
//! its start timestamp, an optional commit timestamp, a sticky aborted flag,
//! and the conflict keys and predicates the transaction has touched. After
//! every server reply that carries an updated context, the merger folds that
//! context into the local one, enforcing that timestamps stay within one
//! transaction's lineage.

use vstd::prelude::*;

use crate::errors::DgraphError;

verus! {

/// Mathematical model of a transaction context.
#[verifier::ext_equal]
pub ghost struct TxnContextView {
    pub start_ts: u64,
    pub commit_ts: u64,
    pub aborted: bool,
    pub keys: Seq<Seq<char>>,
    pub preds: Seq<Seq<char>>,
}

/// Server-tracked metadata of one transaction.
///
/// A timestamp value of zero means "not assigned yet": the server assigns the
/// start timestamp on the first interaction, and the commit timestamp at most
/// once, at commit.
#[derive(Debug, PartialEq, Eq)]
pub struct TxnContext {
    pub start_ts: u64,
    pub commit_ts: u64,
    pub aborted: bool,
    pub keys: Vec<String>,
    pub preds: Vec<String>,
}

impl View for TxnContext {
    type V = TxnContextView;

    open spec fn view(&self) -> TxnContextView {
        TxnContextView {
            start_ts: self.start_ts,
            commit_ts: self.commit_ts,
            aborted: self.aborted,
            keys: self.keys.deep_view(),
            preds: self.preds.deep_view(),
        }
    }
}

/// Whether `incoming` belongs to the lineage of `local`: once the local start
/// timestamp is assigned, only contexts with the very same start timestamp
/// may be merged in.
pub open spec fn merge_accepts(local: TxnContextView, incoming: TxnContextView) -> bool {
    local.start_ts == 0 || incoming.start_ts == local.start_ts
}

/// The context that results from merging `incoming` into `local`: the start
/// timestamp is adopted only if unassigned, the commit timestamp only if
/// unassigned, the aborted flag is sticky, and the conflict-key and predicate
/// collections accumulate.
pub open spec fn merged(local: TxnContextView, incoming: TxnContextView) -> TxnContextView {
    TxnContextView {
        start_ts: if local.start_ts == 0 {
            incoming.start_ts
        } else {
            local.start_ts
        },
        commit_ts: if local.commit_ts == 0 {
            incoming.commit_ts
        } else {
            local.commit_ts
        },
        aborted: local.aborted || incoming.aborted,
        keys: local.keys + incoming.keys,
        preds: local.preds + incoming.preds,
    }
}

/// Appends a copy of every string of `src` to `dst`, in order.
fn append_strings(dst: &mut Vec<String>, src: &Vec<String>)
    ensures
        final(dst).deep_view() == old(dst).deep_view() + src.deep_view(),
{
    let mut i: usize = 0;
    while i < src.len()
        invariant
            i <= src.len(),
            dst.deep_view() == old(dst).deep_view() + src.deep_view().take(i as int),
        decreases src.len() - i,
    {
        let ghost k = i as int;
        let ghost pre = dst.deep_view();
        let s = src[i].clone();
        proof {
            assert(s.deep_view() == src.deep_view()[k]);
        }
        dst.push(s);
        i = i + 1;
        proof {
            assert(dst.deep_view() =~= pre.push(src.deep_view()[k]));
            assert(src.deep_view().take(k + 1) =~= src.deep_view().take(k).push(
                src.deep_view()[k],
            ));
            assert(dst.deep_view() =~= old(dst).deep_view() + src.deep_view().take(k + 1));
        }
    }
    proof {
        assert(src.deep_view().take(src.len() as int) =~= src.deep_view());
    }
}

impl TxnContext {
    /// A fresh, empty context: no timestamps assigned, not aborted, nothing
    /// touched yet.
    pub fn new() -> (c: TxnContext)
        ensures
            c@ == (TxnContextView {
                start_ts: 0,
                commit_ts: 0,
                aborted: false,
                keys: Seq::<Seq<char>>::empty(),
                preds: Seq::<Seq<char>>::empty(),
            }),
    {
        let c = TxnContext {
            start_ts: 0,
            commit_ts: 0,
            aborted: false,
            keys: Vec::new(),
            preds: Vec::new(),
        };
        proof {
            assert(c@ =~= TxnContextView {
                start_ts: 0,
                commit_ts: 0,
                aborted: false,
                keys: Seq::<Seq<char>>::empty(),
                preds: Seq::<Seq<char>>::empty(),
            });
        }
        c
    }

    /// An exact copy of this context.
    pub fn duplicate(&self) -> (c: TxnContext)
        ensures
            c@ == self@,
    {
        let mut keys: Vec<String> = Vec::new();
        append_strings(&mut keys, &self.keys);
        let mut preds: Vec<String> = Vec::new();
        append_strings(&mut preds, &self.preds);
        let c = TxnContext {
            start_ts: self.start_ts,
            commit_ts: self.commit_ts,
            aborted: self.aborted,
            keys,
            preds,
        };
        proof {
            assert(c@.keys =~= self@.keys);
            assert(c@.preds =~= self@.preds);
            assert(c@ =~= self@);
        }
        c
    }

    /// Merges `incoming` into this context.
    ///
    /// Rejects, leaving this context unchanged, any incoming context whose
    /// start timestamp differs from the local one once the local one is
    /// assigned: a context may only ever be merged into the transaction that
    /// produced its lineage. On acceptance the result is exactly
    /// [`merged`]`(old, incoming)`.
    pub fn merge(&mut self, incoming: &TxnContext) -> (r: Result<(), DgraphError>)
        ensures
            r is Ok <==> merge_accepts(old(self)@, incoming@),
            r is Err ==> *final(self) == *old(self) && r == Err::<(), DgraphError>(
                DgraphError::TxnMismatch,
            ),
            r is Ok ==> final(self)@ == merged(old(self)@, incoming@),
    {
        if self.start_ts != 0 && incoming.start_ts != self.start_ts {
            return Err(DgraphError::TxnMismatch);
        }
        if self.start_ts == 0 {
            self.start_ts = incoming.start_ts;
        }
        if self.commit_ts == 0 {
            self.commit_ts = incoming.commit_ts;
        }
        if incoming.aborted {
            self.aborted = true;
        }
        append_strings(&mut self.keys, &incoming.keys);
        append_strings(&mut self.preds, &incoming.preds);
        proof {
            assert(self@ =~= merged(old(self)@, incoming@));
        }
        Ok(())
    }
}

/// A context is well formed when any commit timestamp it carries was assigned
/// after a start timestamp: a commit timestamp, once set, is non-zero only
/// alongside a non-zero start timestamp and strictly exceeds it.
pub open spec fn commit_after_start(c: TxnContextView) -> bool {
    c.commit_ts != 0 ==> c.start_ts != 0 && c.commit_ts > c.start_ts
}

/// Law: one merge step preserves well-formedness. If the local and the
/// incoming context each keep their commit timestamp strictly after their
/// start timestamp, and the incoming context is accepted, so does the merge
/// result.
pub proof fn lemma_merge_preserves_commit_after_start(
    local: TxnContextView,
    incoming: TxnContextView,
)
    requires
        commit_after_start(local),
        commit_after_start(incoming),
        merge_accepts(local, incoming),
    ensures
        commit_after_start(merged(local, incoming)),
{
}

/// The context a transaction holds after a whole run of merge attempts,
/// starting from `init`: each incoming context is merged in if its lineage is
/// accepted at that point, and skipped otherwise (a rejected merge leaves the
/// local context unchanged).
pub open spec fn merge_run(init: TxnContextView, incs: Seq<TxnContextView>) -> TxnContextView
    decreases incs.len(),
{
    if incs.len() == 0 {
        init
    } else {
        let prev = merge_run(init, incs.drop_last());
        if merge_accepts(prev, incs.last()) {
            merged(prev, incs.last())
        } else {
            prev
        }
    }
}

/// Law: over any sequence of merges into a fresh or well-formed context,
/// whenever every incoming context keeps its commit timestamp strictly after
/// its start timestamp, so does the final context. In particular, after any
/// sequence of mutate calls whose replies meet that server contract, a commit
/// timestamp the context ends up carrying strictly exceeds its start
/// timestamp.
pub proof fn lemma_commit_ts_exceeds_start_ts(init: TxnContextView, incs: Seq<TxnContextView>)
    requires
        commit_after_start(init),
        forall|i: int| 0 <= i < incs.len() ==> commit_after_start(#[trigger] incs[i]),
    ensures
        commit_after_start(merge_run(init, incs)),
    decreases incs.len(),
{
    if incs.len() > 0 {
        lemma_commit_ts_exceeds_start_ts(init, incs.drop_last());
        let prev = merge_run(init, incs.drop_last());
        if merge_accepts(prev, incs.last()) {
            lemma_merge_preserves_commit_after_start(prev, incs.last());
        }
    }
}

} // verus!
