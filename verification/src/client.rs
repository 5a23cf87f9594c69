//! Client facades over a channel pool.
//!
//! A client wraps one channel pool and hands out transactions, binding each
//! to a freshly selected channel. The default client carries nothing else;
//! the access-control client additionally carries the login token it was
//! built with, and only that variant offers token access — the capability is
//! discovered by type, not by a runtime flag.

use vstd::prelude::*;

use crate::context::TxnContextView;
use crate::errors::ConfigurationError;
use crate::pool::ChannelPool;
use crate::proto::{LoginRequest, LoginToken};
use crate::txn::{Txn, TxnKind, TxnVariant};

verus! {

/// Inner state of the default client: the channel pool and nothing else.
#[derive(Debug, PartialEq, Eq)]
pub struct Default {
    pub pool: ChannelPool,
}

/// Inner state of the access-control client: the pool and the login token
/// the client was built with.
#[derive(Debug, PartialEq, Eq)]
pub struct Acl {
    pub pool: ChannelPool,
    pub token: LoginToken,
}

/// A client facade, parameterized by the inner state of its variant.
#[derive(Debug, PartialEq, Eq)]
pub struct ClientVariant<E> {
    pub extra: E,
}

/// The default client.
pub type Client = ClientVariant<Default>;

/// The access-control-aware client.
pub type AclClient = ClientVariant<Acl>;

/// A fresh transaction of the given variant, bound to the pool's next
/// channel, with an empty context.
fn txn_from_pool(pool: &mut ChannelPool, kind: TxnKind) -> (t: Txn)
    requires
        old(pool).wf(),
    ensures
        final(pool).wf(),
        final(pool).channels == old(pool).channels,
        final(pool).cursor == (old(pool).cursor + 1) % old(pool).channels@.len() as int,
        t.extra.kind == kind,
        t.state.channel.endpoint@ == old(pool).endpoints_view()[old(pool).cursor as int],
        t.state.context@ == (TxnContextView {
            start_ts: 0,
            commit_ts: 0,
            aborted: false,
            keys: Seq::<Seq<char>>::empty(),
            preds: Seq::<Seq<char>>::empty(),
        }),
{
    let channel = pool.select();
    TxnVariant::<crate::txn::Base>::new(channel, kind)
}

impl Client {
    /// A client backed by the given endpoints, one channel per endpoint (to
    /// the same server, or several servers of a cluster).
    ///
    /// Fails with the empty-configuration error on an empty list and with
    /// the invalid-address error if any entry does not parse as a URI;
    /// failure is atomic, no client and no channel is built.
    pub fn new(endpoints: Vec<String>) -> (r: Result<Client, ConfigurationError>)
        ensures
            r is Ok <==> endpoints@.len() > 0 && (forall|i: int|
                0 <= i < endpoints@.len() ==> crate::pool::is_valid_uri(
                    #[trigger] endpoints@[i]@,
                )),
            endpoints@.len() == 0 ==> r == Err::<Client, ConfigurationError>(
                ConfigurationError::Empty,
            ),
            endpoints@.len() > 0 && (exists|i: int|
                0 <= i < endpoints@.len() && !crate::pool::is_valid_uri(
                    #[trigger] endpoints@[i]@,
                )) ==> r == Err::<Client, ConfigurationError>(ConfigurationError::InvalidAddress),
            r matches Ok(c) ==> ({
                &&& c.extra.pool.wf()
                &&& c.extra.pool.cursor == 0
                &&& c.extra.pool.endpoints_view() == endpoints.deep_view()
            }),
    {
        match ChannelPool::new(endpoints) {
            Ok(pool) => Ok(ClientVariant { extra: Default { pool } }),
            Err(e) => Err(e),
        }
    }

    /// A fresh default transaction, bound to the next channel round-robin,
    /// with a new empty context: no timestamp yet, the server assigns one on
    /// the first interaction.
    pub fn new_txn(&mut self) -> (t: Txn)
        requires
            old(self).extra.pool.wf(),
        ensures
            final(self).extra.pool.wf(),
            final(self).extra.pool.channels == old(self).extra.pool.channels,
            final(self).extra.pool.cursor == (old(self).extra.pool.cursor + 1) % old(
                self,
            ).extra.pool.channels@.len() as int,
            t.extra.kind is Plain,
            t.state.channel.endpoint@ == old(self).extra.pool.endpoints_view()[old(
                self,
            ).extra.pool.cursor as int],
            t.state.context@ == (TxnContextView {
                start_ts: 0,
                commit_ts: 0,
                aborted: false,
                keys: Seq::<Seq<char>>::empty(),
                preds: Seq::<Seq<char>>::empty(),
            }),
    {
        txn_from_pool(&mut self.extra.pool, TxnKind::Plain)
    }

    /// A fresh read-only transaction: it follows the same protocol but
    /// rejects every mutate call.
    pub fn new_read_only_txn(&mut self) -> (t: Txn)
        requires
            old(self).extra.pool.wf(),
        ensures
            final(self).extra.pool.wf(),
            final(self).extra.pool.channels == old(self).extra.pool.channels,
            final(self).extra.pool.cursor == (old(self).extra.pool.cursor + 1) % old(
                self,
            ).extra.pool.channels@.len() as int,
            t.extra.kind is ReadOnly,
            t.state.channel.endpoint@ == old(self).extra.pool.endpoints_view()[old(
                self,
            ).extra.pool.cursor as int],
            t.state.context@ == (TxnContextView {
                start_ts: 0,
                commit_ts: 0,
                aborted: false,
                keys: Seq::<Seq<char>>::empty(),
                preds: Seq::<Seq<char>>::empty(),
            }),
    {
        txn_from_pool(&mut self.extra.pool, TxnKind::ReadOnly)
    }

    /// A fresh best-effort transaction: read-only, and permitted to read a
    /// possibly stale snapshot without coordinating a fresh start timestamp,
    /// trading linearizability for latency.
    pub fn new_best_effort_txn(&mut self) -> (t: Txn)
        requires
            old(self).extra.pool.wf(),
        ensures
            final(self).extra.pool.wf(),
            final(self).extra.pool.channels == old(self).extra.pool.channels,
            final(self).extra.pool.cursor == (old(self).extra.pool.cursor + 1) % old(
                self,
            ).extra.pool.channels@.len() as int,
            t.extra.kind is BestEffort,
            t.state.channel.endpoint@ == old(self).extra.pool.endpoints_view()[old(
                self,
            ).extra.pool.cursor as int],
            t.state.context@ == (TxnContextView {
                start_ts: 0,
                commit_ts: 0,
                aborted: false,
                keys: Seq::<Seq<char>>::empty(),
                preds: Seq::<Seq<char>>::empty(),
            }),
    {
        txn_from_pool(&mut self.extra.pool, TxnKind::BestEffort)
    }

    /// The credential-login request for upgrading this client to the
    /// access-control variant; the token of the server's reply goes to
    /// [`Self::with_login`].
    pub fn login_request(&self, user_id: String, password: String) -> (r: LoginRequest)
        ensures
            r.user_id == user_id,
            r.password == password,
    {
        LoginRequest { user_id, password }
    }

    /// Consumes this client and the token a login returned, yielding the
    /// access-control client over the same pool.
    pub fn with_login(self, token: LoginToken) -> (c: AclClient)
        ensures
            c.extra.pool == self.extra.pool,
            c.extra.token == token,
    {
        ClientVariant { extra: Acl { pool: self.extra.pool, token } }
    }
}

impl AclClient {
    /// The login token this client was built with.
    pub fn token(&self) -> (t: &LoginToken)
        ensures
            *t == self.extra.token,
    {
        &self.extra.token
    }

    /// A fresh default transaction; see [`Client::new_txn`].
    pub fn new_txn(&mut self) -> (t: Txn)
        requires
            old(self).extra.pool.wf(),
        ensures
            final(self).extra.pool.wf(),
            final(self).extra.pool.channels == old(self).extra.pool.channels,
            final(self).extra.pool.cursor == (old(self).extra.pool.cursor + 1) % old(
                self,
            ).extra.pool.channels@.len() as int,
            final(self).extra.token == old(self).extra.token,
            t.extra.kind is Plain,
            t.state.channel.endpoint@ == old(self).extra.pool.endpoints_view()[old(
                self,
            ).extra.pool.cursor as int],
            t.state.context@ == (TxnContextView {
                start_ts: 0,
                commit_ts: 0,
                aborted: false,
                keys: Seq::<Seq<char>>::empty(),
                preds: Seq::<Seq<char>>::empty(),
            }),
    {
        txn_from_pool(&mut self.extra.pool, TxnKind::Plain)
    }

    /// A fresh read-only transaction; see [`Client::new_read_only_txn`].
    pub fn new_read_only_txn(&mut self) -> (t: Txn)
        requires
            old(self).extra.pool.wf(),
        ensures
            final(self).extra.pool.wf(),
            final(self).extra.pool.channels == old(self).extra.pool.channels,
            final(self).extra.pool.cursor == (old(self).extra.pool.cursor + 1) % old(
                self,
            ).extra.pool.channels@.len() as int,
            final(self).extra.token == old(self).extra.token,
            t.extra.kind is ReadOnly,
            t.state.channel.endpoint@ == old(self).extra.pool.endpoints_view()[old(
                self,
            ).extra.pool.cursor as int],
            t.state.context@ == (TxnContextView {
                start_ts: 0,
                commit_ts: 0,
                aborted: false,
                keys: Seq::<Seq<char>>::empty(),
                preds: Seq::<Seq<char>>::empty(),
            }),
    {
        txn_from_pool(&mut self.extra.pool, TxnKind::ReadOnly)
    }
}

} // verus!
