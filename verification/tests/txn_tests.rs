use dgraph_client::client::Client;
use dgraph_client::context::TxnContext;
use dgraph_client::errors::{DgraphError, ProtocolViolation};
use dgraph_client::pool::Channel;
use dgraph_client::proto::{Assigned, CommitEvent, MutateEvent, Mutation};
use dgraph_client::txn::{MutatedTxn, TxnKind, TxnStatus, TxnVariant};

fn fresh_txn(kind: TxnKind) -> MutatedTxn {
    let channel = Channel { endpoint: "http://127.0.0.1:19080".to_string() };
    TxnVariant::new(channel, kind).mutated()
}

fn reply_context(start_ts: u64, commit_ts: u64, keys: Vec<&str>, preds: Vec<&str>) -> TxnContext {
    TxnContext {
        start_ts,
        commit_ts,
        aborted: false,
        keys: keys.into_iter().map(|k| k.to_string()).collect(),
        preds: preds.into_iter().map(|p| p.to_string()).collect(),
    }
}

fn reply(start_ts: u64, uids: Vec<(&str, &str)>) -> MutateEvent {
    MutateEvent::Reply(Assigned {
        uids: uids.into_iter().map(|(b, u)| (b.to_string(), u.to_string())).collect(),
        context: Some(reply_context(start_ts, 0, vec![], vec![])),
    })
}

#[test]
fn discard_without_mutation_is_local_success() {
    let mut txn = fresh_txn(TxnKind::Plain);
    let r = txn.discard().expect("discard");
    assert!(r.is_none(), "no request to send: zero network calls");
    assert_eq!(txn.extra.status, TxnStatus::Aborted);
    assert!(txn.state.context.aborted);
}

#[test]
fn discard_after_mutation_sends_abort_request() {
    let mut txn = fresh_txn(TxnKind::Plain);
    txn.mutate(reply(5, vec![])).expect("mutate");
    let req = txn.discard().expect("discard").expect("a request to send");
    assert!(req.aborted);
    assert_eq!(req.start_ts, 5);
    assert_eq!(txn.extra.status, TxnStatus::DiscardPending);
    let r = txn.finish_discard(CommitEvent::Done);
    assert!(r.is_ok());
    assert_eq!(txn.extra.status, TxnStatus::Aborted);
}

#[test]
fn consumed_transaction_rejects_every_state_changing_call() {
    let mut txn = fresh_txn(TxnKind::Plain);
    txn.commit().expect("local commit");
    assert_eq!(txn.extra.status, TxnStatus::Committed);
    assert_eq!(txn.mutate_request(Mutation::new()), Err(DgraphError::UsedTransaction));
    assert_eq!(
        txn.mutate(reply(1, vec![])),
        Err(DgraphError::UsedTransaction)
    );
    assert_eq!(
        txn.mutate_and_commit_now(reply(1, vec![])),
        Err(DgraphError::UsedTransaction)
    );
    assert_eq!(txn.commit(), Err(DgraphError::UsedTransaction));
    assert_eq!(txn.discard(), Err(DgraphError::UsedTransaction));
    assert_eq!(txn.finish_commit(CommitEvent::Done), Err(DgraphError::UsedTransaction));
    assert_eq!(txn.finish_discard(CommitEvent::Done), Err(DgraphError::UsedTransaction));
}

#[test]
fn read_only_transaction_rejects_mutate_without_network_call() {
    let mut txn = fresh_txn(TxnKind::ReadOnly);
    let r = txn.mutate_request(Mutation::new());
    assert_eq!(r, Err(DgraphError::Protocol(ProtocolViolation::ReadOnly)));
    let r = txn.mutate(reply(1, vec![]));
    assert_eq!(r.unwrap_err(), DgraphError::Protocol(ProtocolViolation::ReadOnly));
    // Nothing about the transaction changed.
    assert_eq!(txn.extra.status, TxnStatus::Active);
    assert!(!txn.extra.mutated);
    assert_eq!(txn.state.context.start_ts, 0);
}

#[test]
fn best_effort_transaction_rejects_mutate_too() {
    let mut txn = fresh_txn(TxnKind::BestEffort);
    let r = txn.mutate_request(Mutation::new());
    assert_eq!(r, Err(DgraphError::Protocol(ProtocolViolation::ReadOnly)));
}

#[test]
fn mutate_request_stamps_start_ts_and_clears_commit_now() {
    let mut txn = fresh_txn(TxnKind::Plain);
    txn.mutate(reply(41, vec![])).expect("mutate");
    let mut mu = Mutation::new();
    mu.set_nquads = b"_:a <name> \"alice\" .".to_vec();
    mu.commit_now = true;
    mu.start_ts = 999;
    let m = txn.mutate_request(mu).expect("request");
    assert_eq!(m.start_ts, 41);
    assert!(!m.commit_now);
    assert_eq!(m.set_nquads, b"_:a <name> \"alice\" .".to_vec());
}

#[test]
fn commit_now_request_sets_the_flag() {
    let txn = fresh_txn(TxnKind::Plain);
    let m = txn.mutate_and_commit_now_request(Mutation::new()).expect("request");
    assert!(m.commit_now);
    assert_eq!(m.start_ts, 0);
}

#[test]
fn missing_context_on_mutate_aborts_locally() {
    let mut txn = fresh_txn(TxnKind::Plain);
    let event = MutateEvent::Reply(Assigned { uids: vec![], context: None });
    let r = txn.mutate(event);
    assert_eq!(r.unwrap_err(), DgraphError::Protocol(ProtocolViolation::MissingContext));
    assert_eq!(txn.extra.status, TxnStatus::Aborted);
    assert!(txn.state.context.aborted);
}

#[test]
fn transport_failure_leaves_prior_state() {
    let mut txn = fresh_txn(TxnKind::Plain);
    let r = txn.mutate(MutateEvent::Transport("connection refused".to_string()));
    assert_eq!(r.unwrap_err(), DgraphError::Transport("connection refused".to_string()));
    assert_eq!(txn.extra.status, TxnStatus::Active);
    assert!(!txn.extra.mutated);
    // The caller may still discard, locally.
    let req = txn.discard().expect("discard");
    assert!(req.is_none());
}

#[test]
fn mismatched_reply_context_is_rejected_unchanged() {
    let mut txn = fresh_txn(TxnKind::Plain);
    txn.mutate(reply(5, vec![])).expect("mutate");
    let event = MutateEvent::Reply(Assigned {
        uids: vec![],
        context: Some(reply_context(6, 0, vec![], vec![])),
    });
    let r = txn.mutate(event);
    assert_eq!(r.unwrap_err(), DgraphError::TxnMismatch);
    assert_eq!(txn.state.context.start_ts, 5);
    assert_eq!(txn.extra.status, TxnStatus::Active);
}

#[test]
fn commit_without_mutation_is_local_success() {
    let mut txn = fresh_txn(TxnKind::Plain);
    let r = txn.commit().expect("commit");
    assert!(r.is_none(), "nothing to commit: zero network calls");
    assert_eq!(txn.extra.status, TxnStatus::Committed);
}

#[test]
fn commit_after_mutation_round_trips() {
    let mut txn = fresh_txn(TxnKind::Plain);
    txn.mutate(reply(11, vec![])).expect("mutate");
    let req = txn.commit().expect("commit").expect("a request to send");
    assert_eq!(req.start_ts, 11);
    assert_eq!(txn.extra.status, TxnStatus::CommitPending);
    let r = txn.finish_commit(CommitEvent::Done);
    assert!(r.is_ok());
    assert_eq!(txn.extra.status, TxnStatus::Committed);
}

#[test]
fn commit_transport_failure_can_be_retried() {
    let mut txn = fresh_txn(TxnKind::Plain);
    txn.mutate(reply(11, vec![])).expect("mutate");
    txn.commit().expect("commit").expect("a request to send");
    let r = txn.finish_commit(CommitEvent::Transport("timed out".to_string()));
    assert_eq!(r.unwrap_err(), DgraphError::Transport("timed out".to_string()));
    assert_eq!(txn.extra.status, TxnStatus::CommitPending);
    let r = txn.finish_commit(CommitEvent::Done);
    assert!(r.is_ok());
    assert_eq!(txn.extra.status, TxnStatus::Committed);
}

#[test]
fn commit_now_scenario_returns_uid_mapping() {
    let endpoints = vec![
        "http://127.0.0.1:19080".to_string(),
        "http://127.0.0.1:19081".to_string(),
    ];
    let mut client = Client::new(endpoints).expect("client");
    let mut txn = client.new_txn().mutated();
    let mut mu = Mutation::new();
    mu.set_nquads = b"_:diggy <name> \"diggy\" .".to_vec();
    let m = txn.mutate_and_commit_now_request(mu).expect("request");
    assert!(m.commit_now);
    // The server assigns the blank node a permanent identifier and returns
    // an updated context.
    let event = MutateEvent::Reply(Assigned {
        uids: vec![("diggy".to_string(), "0x1".to_string())],
        context: Some(reply_context(21, 22, vec![], vec![])),
    });
    let assigned = txn.mutate_and_commit_now(event).expect("commit now");
    assert!(!assigned.uids.is_empty());
    assert_eq!(assigned.uids[0], ("diggy".to_string(), "0x1".to_string()));
    assert_eq!(txn.extra.status, TxnStatus::Committed);
    // The transaction is consumed: no further terminal call is permitted.
    assert_eq!(txn.commit(), Err(DgraphError::UsedTransaction));
}

#[test]
fn conflicting_commits_surface_conflict_error() {
    let endpoints = vec!["http://127.0.0.1:19080".to_string()];
    let mut client = Client::new(endpoints).expect("client");
    let mut txn1 = client.new_txn().mutated();
    let mut txn2 = client.new_txn().mutated();
    // Both transactions mutate the same predicate of the same entity.
    let contested = MutateEvent::Reply(Assigned {
        uids: vec![],
        context: Some(reply_context(31, 0, vec!["2ahy9oh4s9rnV"], vec!["name"])),
    });
    let contested2 = MutateEvent::Reply(Assigned {
        uids: vec![],
        context: Some(reply_context(32, 0, vec!["2ahy9oh4s9rnV"], vec!["name"])),
    });
    txn1.mutate(contested).expect("first mutate");
    txn2.mutate(contested2).expect("second mutate");
    // The first commit succeeds.
    txn1.commit().expect("commit").expect("request");
    assert!(txn1.finish_commit(CommitEvent::Done).is_ok());
    assert_eq!(txn1.extra.status, TxnStatus::Committed);
    // The second commit is answered with a conflict.
    txn2.commit().expect("commit").expect("request");
    let r = txn2.finish_commit(CommitEvent::Conflict);
    assert_eq!(r.unwrap_err(), DgraphError::Conflict);
    assert_eq!(txn2.extra.status, TxnStatus::Aborted);
}

#[test]
fn query_request_carries_variant_flags() {
    let plain = fresh_txn(TxnKind::Plain);
    let q = plain.query_request("{ q(func: uid(0x1)) { uid } }".to_string(), vec![]);
    assert!(!q.read_only);
    assert!(!q.best_effort);
    assert_eq!(q.query, "{ q(func: uid(0x1)) { uid } }");

    let ro = fresh_txn(TxnKind::ReadOnly);
    let q = ro.query_request("{}".to_string(), vec![("$a".to_string(), "1".to_string())]);
    assert!(q.read_only);
    assert!(!q.best_effort);
    assert_eq!(q.vars, vec![("$a".to_string(), "1".to_string())]);

    let be = fresh_txn(TxnKind::BestEffort);
    let q = be.query_request("{}".to_string(), vec![]);
    assert!(q.read_only);
    assert!(q.best_effort);
}

#[test]
fn query_request_is_stamped_with_start_ts() {
    let mut txn = fresh_txn(TxnKind::Plain);
    txn.mutate(reply(17, vec![])).expect("mutate");
    let q = txn.query_request("{}".to_string(), vec![]);
    assert_eq!(q.start_ts, 17);
}
