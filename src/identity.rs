//! The identity rotation pool: a bounded local stack of request identities,
//! blended with a shared external store at a configurable rate.

use crate::random::random_below;
use std::collections::VecDeque;
use vstd::prelude::*;

verus! {

/// An outbound proxy and what is known of its quality.
#[derive(Debug)]
pub struct Proxy {
    pub ip: String,
    pub port: u16,
    pub country: String,
    pub anonymity: String,
    pub google: bool,
    pub https: bool,
    pub last_checked: String,
    pub proxy_type: String,
    pub response_time: String,
    pub uptime: String,
    pub verified: bool,
    pub source: String,
}

impl Proxy {
    /// A proxy with every field empty, zero or false.
    pub fn new() -> (p: Proxy)
        ensures
            p.ip@.len() == 0 && p.port == 0 && p.country@.len() == 0 && p.anonymity@.len() == 0,
            !p.google && !p.https && !p.verified,
            p.last_checked@.len() == 0 && p.proxy_type@.len() == 0 && p.response_time@.len() == 0,
            p.uptime@.len() == 0 && p.source@.len() == 0,
    {
        Proxy {
            ip: String::new(),
            port: 0,
            country: String::new(),
            anonymity: String::new(),
            google: false,
            https: false,
            last_checked: String::new(),
            proxy_type: String::new(),
            response_time: String::new(),
            uptime: String::new(),
            verified: false,
            source: String::new(),
        }
    }
}

impl Clone for Proxy {
    fn clone(&self) -> (r: Proxy)
        ensures
            r == *self,
    {
        Proxy {
            ip: self.ip.clone(),
            port: self.port,
            country: self.country.clone(),
            anonymity: self.anonymity.clone(),
            google: self.google,
            https: self.https,
            last_checked: self.last_checked.clone(),
            proxy_type: self.proxy_type.clone(),
            response_time: self.response_time.clone(),
            uptime: self.uptime.clone(),
            verified: self.verified,
            source: self.source.clone(),
        }
    }
}

/// The headers, and optionally the proxy, that one outbound request presents.
#[derive(Debug)]
pub struct Identity {
    pub user_agent: String,
    pub accept: String,
    pub accept_language: String,
    pub accept_encoding: String,
    pub referer: String,
    pub cookie: String,
    pub dnt: String,
    pub upgrade_insecure_requests: String,
    pub cache_control: String,
    pub proxy: Option<Proxy>,
}

impl Clone for Identity {
    fn clone(&self) -> (r: Identity)
        ensures
            r == *self,
    {
        let proxy = match &self.proxy {
            Some(p) => Some(p.clone()),
            None => None,
        };
        Identity {
            user_agent: self.user_agent.clone(),
            accept: self.accept.clone(),
            accept_language: self.accept_language.clone(),
            accept_encoding: self.accept_encoding.clone(),
            referer: self.referer.clone(),
            cookie: self.cookie.clone(),
            dnt: self.dnt.clone(),
            upgrade_insecure_requests: self.upgrade_insecure_requests.clone(),
            cache_control: self.cache_control.clone(),
            proxy,
        }
    }
}

/// Where the next identity comes from.
#[derive(Clone, Copy, Debug, PartialEq, Eq, Structural)]
pub enum Source {
    /// The most recently added identity of the local pool.
    Local,
    /// The shared external store.
    External,
}

/// The source chosen for a pool of `len` identities out of `capacity`, at a
/// rotation rate of `rate` percent, with a draw `draw` from `0..100`: the
/// store when the pool is empty, the pool when it is full, and otherwise the
/// store for draws below the rate.
pub open spec fn source_for(len: nat, capacity: nat, rate: nat, draw: nat) -> Source {
    if len == 0 {
        Source::External
    } else if len >= capacity {
        Source::Local
    } else if draw < rate {
        Source::External
    } else {
        Source::Local
    }
}

/// The pool after `identity` is added: it goes on top; when the pool is full
/// the oldest identity makes room; a pool of capacity zero keeps nothing.
pub open spec fn pushed(pool: Seq<Identity>, identity: Identity, capacity: nat) -> Seq<Identity> {
    if capacity == 0 {
        pool
    } else if pool.len() >= capacity {
        pool.drop_first().push(identity)
    } else {
        pool.push(identity)
    }
}

/// A bounded local pool of identities with a rotation rate towards the
/// shared store: 0 always reuses the pool, 100 always asks the store.
pub struct IdentityManager {
    pub pool: VecDeque<Identity>,
    pub capacity: usize,
    /// Percent of the requests, when the pool is neither empty nor full, that
    /// are served from the shared store.
    pub rotation_rate: u64,
}

impl IdentityManager {
    pub open spec fn wf(&self) -> bool {
        &&& self.pool@.len() <= self.capacity
        &&& self.rotation_rate <= 100
    }

    /// An empty pool holding at most `pool_size` identities.
    pub fn new(pool_size: usize, rotation_rate: u64) -> (m: IdentityManager)
        requires
            rotation_rate <= 100,
        ensures
            m.wf(),
            m.pool@.len() == 0,
            m.capacity == pool_size,
            m.rotation_rate == rotation_rate,
    {
        IdentityManager { pool: VecDeque::with_capacity(pool_size), capacity: pool_size, rotation_rate }
    }

    /// Puts an identity on top of the pool, making room by dropping the
    /// oldest one when the pool is full.
    pub fn add(&mut self, identity: Identity)
        requires
            old(self).wf(),
        ensures
            final(self).wf(),
            final(self).capacity == old(self).capacity,
            final(self).rotation_rate == old(self).rotation_rate,
            final(self).pool@ == pushed(old(self).pool@, identity, old(self).capacity as nat),
    {
        if self.capacity == 0 {
            return;
        }
        if self.pool.len() >= self.capacity {
            let ghost before = self.pool@;
            let _ = self.pool.pop_front();
            assert(self.pool@ =~= before.drop_first());
        }
        self.pool.push_back(identity);
    }

    /// The source for the draw `draw`, taken from `0..100`.
    pub fn source_for_draw(&self, draw: u64) -> (r: Source)
        requires
            self.wf(),
        ensures
            r == source_for(self.pool@.len(), self.capacity as nat, self.rotation_rate as nat, draw as nat),
    {
        let len = self.pool.len();
        if len == 0 {
            Source::External
        } else if len >= self.capacity {
            Source::Local
        } else if draw < self.rotation_rate {
            Source::External
        } else {
            Source::Local
        }
    }

    /// Chooses where the next identity comes from, drawing at random when
    /// the pool is neither empty nor full.
    pub fn choose_source(&self) -> (r: Source)
        requires
            self.wf(),
        ensures
            exists|draw: nat|
                draw < 100 && r == #[trigger] source_for(
                    self.pool@.len(),
                    self.capacity as nat,
                    self.rotation_rate as nat,
                    draw,
                ),
    {
        let draw = random_below(100);
        self.source_for_draw(draw)
    }

    /// Takes the most recently added identity off the pool.
    pub fn pop_local(&mut self) -> (r: Option<Identity>)
        requires
            old(self).wf(),
        ensures
            final(self).wf(),
            final(self).capacity == old(self).capacity,
            final(self).rotation_rate == old(self).rotation_rate,
            old(self).pool@.len() == 0 ==> r is None && final(self).pool@ == old(self).pool@,
            old(self).pool@.len() > 0 ==> r == Some(old(self).pool@.last()) && final(self).pool@
                == old(self).pool@.drop_last(),
    {
        let ghost before = self.pool@;
        let r = self.pool.pop_back();
        proof {
            if before.len() > 0 {
                assert(self.pool@ =~= before.drop_last());
            }
        }
        r
    }

    /// Takes what the shared store returned: an identity is kept in the
    /// pool and handed out; nothing from the store means no identity.
    pub fn accept_external(&mut self, fetched: Option<Identity>) -> (r: Option<Identity>)
        requires
            old(self).wf(),
        ensures
            final(self).wf(),
            final(self).capacity == old(self).capacity,
            final(self).rotation_rate == old(self).rotation_rate,
            r == fetched,
            fetched matches Some(i) ==> final(self).pool@ == pushed(old(self).pool@, i, old(self).capacity as nat),
            fetched is None ==> final(self).pool@ == old(self).pool@,
    {
        match fetched {
            Some(identity) => {
                self.add(identity.clone());
                Some(identity)
            },
            None => None,
        }
    }
}

/// Adding identities with no `get` in between never takes the pool past its
/// capacity, however many are added: `capacity + 1` additions leave exactly
/// `capacity` identities.
pub proof fn lemma_adds_stay_within_capacity(pool: Seq<Identity>, added: Seq<Identity>, capacity: nat)
    requires
        pool.len() <= capacity,
    ensures
        adds(pool, added, capacity).len() <= capacity,
        capacity > 0 ==> adds(pool, added, capacity).len() == if pool.len() + added.len() <= capacity {
            pool.len() + added.len()
        } else {
            capacity
        },
        added.len() >= capacity ==> adds(pool, added, capacity).len() == capacity,
    decreases added.len(),
{
    if added.len() > 0 {
        lemma_adds_stay_within_capacity(pool, added.drop_last(), capacity);
    }
}

/// The pool after adding each of `added`, in order.
pub open spec fn adds(pool: Seq<Identity>, added: Seq<Identity>, capacity: nat) -> Seq<Identity>
    decreases added.len(),
{
    if added.len() == 0 {
        pool
    } else {
        pushed(adds(pool, added.drop_last(), capacity), added.last(), capacity)
    }
}

} // verus!
