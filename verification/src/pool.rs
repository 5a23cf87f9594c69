//! Channels and the channel pool.
//!
//! A channel is the handle a transaction holds to one configured network
//! endpoint; the pool owns one channel per endpoint and hands them out
//! round-robin. The pool validates every endpoint address at construction,
//! atomically: either every address parses as a URI and the pool is built, or
//! construction fails and no channel exists. The underlying network
//! connection behind a channel is established lazily by the embedding
//! application on first use, outside this library.

use vstd::prelude::*;

use crate::errors::ConfigurationError;

verus! {

/// Whether a string parses as a URI, as decided by `http`'s parser.
pub uninterp spec fn is_valid_uri(s: Seq<char>) -> bool;

/// Relies on `http::Uri`'s string parser (`str::parse::<http::Uri>`): whether
/// a string parses as a URI depends on its characters alone, and parsing
/// returns a `Result` rather than panicking.
#[verifier::external_body]
fn uri_parses(s: &str) -> (r: bool)
    ensures
        r == is_valid_uri(s@),
{
    s.parse::<http::Uri>().is_ok()
}

/// A handle to one configured endpoint.
///
/// A pool validates every address as a URI before it builds its channels.
#[derive(Debug, PartialEq, Eq)]
pub struct Channel {
    pub endpoint: String,
}

impl Channel {
    /// A handle to the same endpoint.
    pub fn duplicate(&self) -> (c: Channel)
        ensures
            c.endpoint@ == self.endpoint@,
    {
        Channel { endpoint: self.endpoint.clone() }
    }
}

/// One channel per configured endpoint, with a round-robin selection cursor.
#[derive(Debug, PartialEq, Eq)]
pub struct ChannelPool {
    pub channels: Vec<Channel>,
    pub cursor: usize,
}

impl ChannelPool {
    /// A pool is well formed when it holds at least one channel and its
    /// cursor points at one of them.
    pub open spec fn wf(self) -> bool {
        &&& self.channels@.len() > 0
        &&& self.cursor < self.channels@.len()
    }

    /// The endpoint addresses of the pool's channels, in configuration order.
    pub open spec fn endpoints_view(self) -> Seq<Seq<char>> {
        self.channels@.map_values(|c: Channel| c.endpoint@)
    }

    /// Builds one channel per endpoint address, in order.
    ///
    /// Fails with `ConfigurationError::Empty` on an empty list and with
    /// `ConfigurationError::InvalidAddress` if any entry does not parse as a
    /// URI; failure is atomic, no pool and no channel is built. On success
    /// the selection cursor starts at the first endpoint.
    pub fn new(endpoints: Vec<String>) -> (r: Result<ChannelPool, ConfigurationError>)
        ensures
            r is Ok <==> endpoints@.len() > 0 && (forall|i: int|
                0 <= i < endpoints@.len() ==> is_valid_uri(#[trigger] endpoints@[i]@)),
            endpoints@.len() == 0 ==> r == Err::<ChannelPool, ConfigurationError>(
                ConfigurationError::Empty,
            ),
            endpoints@.len() > 0 && (exists|i: int|
                0 <= i < endpoints@.len() && !is_valid_uri(#[trigger] endpoints@[i]@)) ==> r
                == Err::<ChannelPool, ConfigurationError>(ConfigurationError::InvalidAddress),
            r matches Ok(p) ==> {
                &&& p.wf()
                &&& p.cursor == 0
                &&& p.endpoints_view() == endpoints.deep_view()
            },
    {
        if endpoints.len() == 0 {
            return Err(ConfigurationError::Empty);
        }
        let mut i: usize = 0;
        while i < endpoints.len()
            invariant
                i <= endpoints.len(),
                forall|j: int| 0 <= j < i ==> is_valid_uri(#[trigger] endpoints@[j]@),
            decreases endpoints.len() - i,
        {
            if !uri_parses(endpoints[i].as_str()) {
                return Err(ConfigurationError::InvalidAddress);
            }
            i = i + 1;
        }
        let mut channels: Vec<Channel> = Vec::new();
        let mut j: usize = 0;
        while j < endpoints.len()
            invariant
                j <= endpoints.len(),
                channels@.len() == j,
                forall|k: int| 0 <= k < j ==> (#[trigger] channels@[k]).endpoint@
                    == endpoints@[k]@,
            decreases endpoints.len() - j,
        {
            let endpoint = endpoints[j].clone();
            channels.push(Channel { endpoint });
            j = j + 1;
        }
        let pool = ChannelPool { channels, cursor: 0 };
        proof {
            assert(pool.endpoints_view() =~= endpoints.deep_view());
        }
        Ok(pool)
    }

    /// The number of configured endpoints.
    pub fn len(&self) -> (n: usize)
        ensures
            n == self.channels@.len(),
    {
        self.channels.len()
    }

    /// Selects the next channel, round-robin over the configured endpoints:
    /// the channel under the cursor is returned and the cursor advances by
    /// one, wrapping. A single-endpoint pool always returns that endpoint.
    pub fn select(&mut self) -> (c: Channel)
        requires
            old(self).wf(),
        ensures
            final(self).wf(),
            final(self).channels == old(self).channels,
            final(self).cursor == (old(self).cursor + 1) % old(self).channels@.len() as int,
            c.endpoint@ == old(self).endpoints_view()[old(self).cursor as int],
    {
        let n = self.channels.len();
        let c = self.channels[self.cursor].duplicate();
        if self.cursor >= n - 1 {
            self.cursor = 0;
        } else {
            self.cursor = self.cursor + 1;
        }
        proof {
            let n_int = old(self).channels@.len() as int;
            let cu = old(self).cursor as int;
            if cu + 1 == n_int {
                assert((cu + 1) % n_int == 0) by (nonlinear_arith)
                    requires
                        cu + 1 == n_int,
                        n_int > 0,
                ;
            } else {
                vstd::arithmetic::div_mod::lemma_small_mod((cu + 1) as nat, n_int as nat);
            }
        }
        c
    }

    /// A handle to every configured endpoint, in configuration order.
    pub fn all(&self) -> (cs: Vec<Channel>)
        ensures
            cs@.len() == self.channels@.len(),
            forall|i: int| 0 <= i < cs@.len() ==> (#[trigger] cs@[i]).endpoint@
                == self.endpoints_view()[i],
    {
        let mut cs: Vec<Channel> = Vec::new();
        let mut i: usize = 0;
        while i < self.channels.len()
            invariant
                i <= self.channels@.len(),
                cs@.len() == i,
                forall|k: int| 0 <= k < i ==> (#[trigger] cs@[k]).endpoint@
                    == self.channels@[k].endpoint@,
            decreases self.channels@.len() - i,
        {
            let c = self.channels[i].duplicate();
            cs.push(c);
            i = i + 1;
        }
        cs
    }
}

} // verus!
