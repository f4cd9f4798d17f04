use std::collections::VecDeque;
use vstd::prelude::*;

use crate::config::{
    DEFAULT_MAX_CONNECTIONS,
    DEFAULT_MAX_REQUESTS_PER_CONNECTION,
    DEFAULT_TIMEOUT_SECS,
    ServerConfig,
    or_default,
};
use crate::connection::{ConnectionView, HttpConnection, fresh_connection, idle_expired};

verus! {

/// The abstract state of the ledger.
pub struct LedgerView {
    /// Connections admitted and not yet released.
    pub active: usize,
    /// The most connections admitted at once.
    pub max_connections: usize,
    /// Idle connections kept for bookkeeping, oldest first.
    pub idle: Seq<ConnectionView>,
}

/// Admission: one more connection is let in while fewer than the limit are
/// active.
pub open spec fn admit_step(l: LedgerView) -> (LedgerView, bool) {
    if l.active < l.max_connections {
        (LedgerView { active: (l.active + 1) as usize, ..l }, true)
    } else {
        (l, false)
    }
}

/// The ledger after a connection is released: one fewer is active, and a
/// reusable one joins the idle queue while the queue is under the limit.
pub open spec fn release_step(l: LedgerView, c: ConnectionView, reusable: bool) -> LedgerView {
    LedgerView {
        active: if l.active > 0 {
            (l.active - 1) as usize
        } else {
            0
        },
        idle: if reusable && l.idle.len() < l.max_connections {
            l.idle.push(c)
        } else {
            l.idle
        },
        ..l
    }
}

/// The idle connections that are not expired at `now`, in order.
pub open spec fn unexpired(s: Seq<ConnectionView>, now: u64) -> Seq<ConnectionView>
    decreases s.len(),
{
    if s.len() == 0 {
        s
    } else {
        let p = unexpired(s.drop_last(), now);
        if idle_expired(s.last(), now) {
            p
        } else {
            p.push(s.last())
        }
    }
}

/// Admission control and the idle pool: counts active connections against
/// the limit, and keeps released connections that could serve again.
pub struct ConnectionPool {
    available: VecDeque<HttpConnection>,
    active: usize,
    max_connections: usize,
    max_requests: usize,
    idle_timeout: u64,
}

impl View for ConnectionPool {
    type V = LedgerView;

    closed spec fn view(&self) -> LedgerView {
        LedgerView {
            active: self.active,
            max_connections: self.max_connections,
            idle: self.available@.map_values(|c: HttpConnection| c@),
        }
    }
}

impl ConnectionPool {
    pub closed spec fn quota(&self) -> usize {
        self.max_requests
    }

    pub closed spec fn idle_timeout(&self) -> u64 {
        self.idle_timeout
    }

    /// An empty ledger with the configured limits.
    pub fn new(config: &ServerConfig) -> (r: ConnectionPool)
        ensures
            r@ == (LedgerView {
                active: 0,
                max_connections: or_default(config.max_connections, DEFAULT_MAX_CONNECTIONS),
                idle: Seq::empty(),
            }),
            r.quota() == or_default(
                config.max_requests_per_connection,
                DEFAULT_MAX_REQUESTS_PER_CONNECTION,
            ),
            r.idle_timeout() == or_default(config.keep_alive_timeout, DEFAULT_TIMEOUT_SECS),
    {
        let r = ConnectionPool {
            available: VecDeque::new(),
            active: 0,
            max_connections: config.connection_limit(),
            max_requests: config.request_quota(),
            idle_timeout: config.idle_timeout_secs(),
        };
        assert(r@.idle =~= Seq::empty());
        r
    }

    /// Lets one more connection in if fewer than the limit are active.
    pub fn try_admit(&mut self) -> (r: bool)
        ensures
            (final(self)@, r) == admit_step(old(self)@),
            final(self).quota() == old(self).quota(),
            final(self).idle_timeout() == old(self).idle_timeout(),
    {
        if self.active < self.max_connections {
            self.active = self.active + 1;
            true
        } else {
            false
        }
    }

    /// A connection state for a socket just accepted from `peer_addr` at
    /// `now`; the idle pool is bookkeeping only and never hands out another
    /// client's connection.
    pub fn get_connection(&self, peer_addr: String, now: u64) -> (r: HttpConnection)
        ensures
            r@ == fresh_connection(peer_addr@, self.quota(), self.idle_timeout(), now),
    {
        HttpConnection::with_limits(peer_addr, self.max_requests, self.idle_timeout, now)
    }

    /// Takes back an admitted connection whose loop has ended at `now`;
    /// `healthy` is the outcome of its liveness probe.
    pub fn release_connection(&mut self, connection: HttpConnection, now: u64, healthy: bool)
        ensures
            final(self)@ == release_step(
                old(self)@,
                connection@,
                !idle_expired(connection@, now) && connection@.request_count
                    < connection@.max_requests && healthy,
            ),
            final(self).quota() == old(self).quota(),
            final(self).idle_timeout() == old(self).idle_timeout(),
    {
        if self.active > 0 {
            self.active = self.active - 1;
        }
        let ghost c = connection@;
        if connection.is_reusable(now, healthy) && self.available.len() < self.max_connections {
            self.available.push_back(connection);
            assert(self@.idle =~= old(self)@.idle.push(c));
        }
    }

    /// Drops the idle connections that have expired at `now`; returns how
    /// many went.
    pub fn prune_expired(&mut self, now: u64) -> (r: usize)
        ensures
            final(self)@ == (LedgerView { idle: unexpired(old(self)@.idle, now), ..old(self)@ }),
            r == old(self)@.idle.len() - final(self)@.idle.len(),
            final(self).quota() == old(self).quota(),
            final(self).idle_timeout() == old(self).idle_timeout(),
    {
        let mut old_list: VecDeque<HttpConnection> = VecDeque::new();
        std::mem::swap(&mut old_list, &mut self.available);
        let ghost all = old(self)@.idle;
        assert(old_list@.map_values(|c: HttpConnection| c@) =~= all);
        let mut kept: VecDeque<HttpConnection> = VecDeque::new();
        let mut removed: usize = 0;
        let n = old_list.len();
        let mut rest = old_list;
        let mut i: usize = 0;
        while i < n
            invariant
                n == all.len(),
                i <= n,
                rest@.len() == n - i,
                forall|k: int| 0 <= k < rest@.len() ==> #[trigger] rest@[k]@ == all[i + k],
                kept@.map_values(|c: HttpConnection| c@) == unexpired(all.subrange(0, i as int), now),
                removed == i - kept@.len(),
            decreases n - i,
        {
            let c = rest.pop_front().unwrap();
            let ghost p = all.subrange(0, i as int);
            assert(all.subrange(0, i + 1).drop_last() =~= p);
            if !c.is_expired(now) {
                kept.push_back(c);
            } else {
                removed = removed + 1;
            }
            i = i + 1;
            assert(kept@.map_values(|c: HttpConnection| c@) =~= unexpired(all.subrange(0, i as int), now));
        }
        assert(all.subrange(0, n as int) =~= all);
        self.available = kept;
        removed
    }

    /// Connections admitted and not yet released.
    pub fn active_count(&self) -> (r: usize)
        ensures
            r == self@.active,
    {
        self.active
    }

    /// Connections in the idle pool.
    pub fn idle_count(&self) -> (r: usize)
        ensures
            r == self@.idle.len(),
    {
        self.available.len()
    }

    /// The most connections admitted at once.
    pub fn capacity(&self) -> (r: usize)
        ensures
            r == self@.max_connections,
    {
        self.max_connections
    }
}

} // verus!
