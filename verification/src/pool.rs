//! Connection pool configuration and the rules by which idle connections
//! are reused, kept or dropped.
use vstd::prelude::*;
use std::time::{Duration, Instant};

use crate::clock::{
    duration_from_secs, duration_nanos, duration_not_longer, instant_saturating_duration_since,
    instant_ticks,
};

verus! {

/// Configuration for connection pooling.
#[derive(Debug, Clone)]
pub struct PoolConfig {
    /// Maximum connections per endpoint.
    pub max_connections_per_endpoint: usize,
    /// Minimum idle connections per endpoint.
    pub min_idle_connections: usize,
    /// Maximum lifetime of a connection.
    pub max_lifetime: Duration,
    /// Idle timeout before closing a connection.
    pub idle_timeout: Duration,
    /// Timeout for acquiring a connection from the pool.
    pub acquire_timeout: Duration,
}

impl Default for PoolConfig {
    /// 16 connections per endpoint, 2 idle at least, a 300 s lifetime, a 60 s
    /// idle timeout and a 5 s acquire timeout.
    fn default() -> (r: Self)
        ensures
            r.max_connections_per_endpoint == 16,
            r.min_idle_connections == 2,
            duration_nanos(r.max_lifetime) == 300_000_000_000,
            duration_nanos(r.idle_timeout) == 60_000_000_000,
            duration_nanos(r.acquire_timeout) == 5_000_000_000,
    {
        PoolConfig {
            max_connections_per_endpoint: 16,
            min_idle_connections: 2,
            max_lifetime: duration_from_secs(300),
            idle_timeout: duration_from_secs(60),
            acquire_timeout: duration_from_secs(5),
        }
    }
}

impl PoolConfig {
    /// Create a new pool configuration with defaults.
    pub fn new() -> (r: Self)
        ensures
            r.max_connections_per_endpoint == 16,
            r.min_idle_connections == 2,
            duration_nanos(r.max_lifetime) == 300_000_000_000,
            duration_nanos(r.idle_timeout) == 60_000_000_000,
            duration_nanos(r.acquire_timeout) == 5_000_000_000,
    {
        Self::default()
    }

    /// Set maximum connections per endpoint.
    pub fn max_connections(self, max: usize) -> (r: Self)
        ensures
            r == (PoolConfig { max_connections_per_endpoint: max, ..self }),
    {
        PoolConfig { max_connections_per_endpoint: max, ..self }
    }

    /// Set minimum idle connections.
    pub fn min_idle(self, min: usize) -> (r: Self)
        ensures
            r == (PoolConfig { min_idle_connections: min, ..self }),
    {
        PoolConfig { min_idle_connections: min, ..self }
    }

    /// Set maximum connection lifetime.
    pub fn max_lifetime(self, lifetime: Duration) -> (r: Self)
        ensures
            r == (PoolConfig { max_lifetime: lifetime, ..self }),
    {
        PoolConfig { max_lifetime: lifetime, ..self }
    }

    /// Set idle timeout.
    pub fn idle_timeout(self, timeout: Duration) -> (r: Self)
        ensures
            r == (PoolConfig { idle_timeout: timeout, ..self }),
    {
        PoolConfig { idle_timeout: timeout, ..self }
    }
}

/// Statistics for a pool endpoint.
#[derive(Debug, Clone)]
pub struct PoolStats {
    /// Number of idle connections.
    pub idle_connections: usize,
    /// Maximum connections allowed.
    pub max_connections: usize,
}

/// A connection waiting in the pool.
#[derive(Debug)]
pub struct IdleConnection<C> {
    /// The connection.
    pub connection: C,
    /// When the connection was made.
    pub created: Instant,
    /// When it was last returned to the pool.
    pub returned: Instant,
}

/// The time from `since` to `now`, zero when `since` is later
/// (`Instant::elapsed` read at `now`).
pub open spec fn elapsed_at(since: Instant, now: Instant) -> nat {
    if instant_ticks(since) <= instant_ticks(now) {
        (instant_ticks(now) - instant_ticks(since)) as nat
    } else {
        0
    }
}

/// Whether a connection made at `created` has outlived `max_lifetime` at `now`.
pub open spec fn outlived(created: Instant, now: Instant, max_lifetime: Duration) -> bool {
    elapsed_at(created, now) > duration_nanos(max_lifetime)
}

/// Whether an idle connection may still be handed out at `now`: it has not
/// outlived the maximum lifetime, and has not been idle past the idle timeout.
pub open spec fn reusable<C>(c: IdleConnection<C>, now: Instant, config: PoolConfig) -> bool {
    !outlived(c.created, now, config.max_lifetime) && elapsed_at(c.returned, now) <= duration_nanos(
        config.idle_timeout,
    )
}

/// Whether the time from `since` to `now` exceeds `limit`.
pub fn elapsed_exceeds(since: &Instant, now: &Instant, limit: &Duration) -> (r: bool)
    ensures
        r == (elapsed_at(*since, *now) > duration_nanos(*limit)),
{
    let elapsed = instant_saturating_duration_since(now, since);
    !duration_not_longer(&elapsed, limit)
}

/// Whether `c` may still be handed out at `now`.
pub fn is_reusable<C>(c: &IdleConnection<C>, now: &Instant, config: &PoolConfig) -> (r: bool)
    ensures
        r == reusable(*c, *now, *config),
{
    !elapsed_exceeds(&c.created, now, &config.max_lifetime) && !elapsed_exceeds(
        &c.returned,
        now,
        &config.idle_timeout,
    )
}

/// The index of the last connection in `s` that may be handed out at `now`,
/// or -1 when there is none.
pub open spec fn last_reusable<C>(s: Seq<IdleConnection<C>>, now: Instant, config: PoolConfig) -> int
    decreases s.len(),
{
    if s.len() == 0 {
        -1
    } else if reusable(s.last(), now, config) {
        s.len() - 1
    } else {
        last_reusable(s.drop_last(), now, config)
    }
}

proof fn lemma_last_reusable_bounds<C>(s: Seq<IdleConnection<C>>, now: Instant, config: PoolConfig)
    ensures
        -1 <= last_reusable(s, now, config) < s.len(),
        last_reusable(s, now, config) >= 0 ==> reusable(s[last_reusable(s, now, config)], now, config),
        forall|j: int| last_reusable(s, now, config) < j < s.len() ==> !reusable(#[trigger] s[j], now, config),
    decreases s.len(),
{
    if s.len() > 0 && !reusable(s.last(), now, config) {
        lemma_last_reusable_bounds(s.drop_last(), now, config);
        assert forall|j: int| last_reusable(s, now, config) < j < s.len() implies !reusable(#[trigger] s[j], now, config) by {
            if j < s.len() - 1 {
                assert(s.drop_last()[j] == s[j]);
            }
        }
    }
}

/// Take an idle connection to hand out: connections are popped from the end
/// of the list, those that may no longer be used are dropped, and the first
/// one that may be used is returned. Everything before it stays idle.
pub fn take_reusable<C>(conns: &mut Vec<IdleConnection<C>>, now: &Instant, config: &PoolConfig) -> (r: Option<IdleConnection<C>>)
    ensures
        ({
            let k = last_reusable(old(conns)@, *now, *config);
            &&& k >= 0 ==> r == Some(old(conns)@[k]) && final(conns)@ == old(conns)@.take(k)
            &&& k < 0 ==> r is None && final(conns)@ == Seq::<IdleConnection<C>>::empty()
        }),
{
    let ghost orig = conns@;
    proof {
        lemma_last_reusable_bounds(orig, *now, *config);
    }
    while conns.len() > 0
        invariant
            orig == old(conns)@,
            conns@ == orig.take(conns@.len() as int),
            conns@.len() <= orig.len(),
            last_reusable(orig, *now, *config) < conns@.len() as int,
            -1 <= last_reusable(orig, *now, *config) < orig.len(),
            last_reusable(orig, *now, *config) >= 0 ==> reusable(orig[last_reusable(orig, *now, *config)], *now, *config),
            forall|j: int| last_reusable(orig, *now, *config) < j < orig.len() ==> !reusable(#[trigger] orig[j], *now, *config),
        decreases conns@.len(),
    {
        let idle = conns.pop().unwrap();
        let ghost n = conns@.len() as int;
        proof {
            assert(idle == orig[n]);
            assert(conns@ =~= orig.take(n));
        }
        if is_reusable(&idle, now, config) {
            proof {
                assert(reusable(orig[n], *now, *config));
                assert(last_reusable(orig, *now, *config) == n);
                assert(conns@ == orig.take(n));
                assert(orig == old(conns)@);
            }
            return Some(idle);
        }
    }
    proof {
        assert(conns@ =~= Seq::<IdleConnection<C>>::empty());
    }
    None
}

/// Drop the idle connections that may no longer be handed out at `now`,
/// keeping the others in order.
pub fn retain_reusable<C>(conns: &mut Vec<IdleConnection<C>>, now: &Instant, config: &PoolConfig)
    ensures
        final(conns)@ == old(conns)@.filter(|c: IdleConnection<C>| reusable(c, *now, *config)),
{
    let ghost orig = conns@;
    let ghost keep = |c: IdleConnection<C>| reusable(c, *now, *config);
    let mut rest: Vec<IdleConnection<C>> = Vec::new();
    std::mem::swap(&mut rest, conns);
    let mut kept: Vec<IdleConnection<C>> = Vec::new();
    let mut i: usize = 0;
    let total = rest.len();
    while rest.len() > 0
        invariant
            total == orig.len(),
            i + rest@.len() == total,
            rest@ == orig.skip(i as int),
            keep == (|c: IdleConnection<C>| reusable(c, *now, *config)),
            kept@ == orig.take(i as int).filter(keep),
        decreases rest@.len(),
    {
        let idle = rest.remove(0);
        let ghost before = kept@;
        proof {
            assert(idle == orig[i as int]);
            assert(orig.skip(i as int).remove(0) =~= orig.skip(i + 1));
        }
        let keep_it = is_reusable(&idle, now, config);
        if keep_it {
            kept.push(idle);
        }
        proof {
            reveal_with_fuel(Seq::<_>::filter, 1);
            let t = orig.take(i + 1);
            assert(t.drop_last() =~= orig.take(i as int));
            assert(t.last() == orig[i as int]);
            assert(t.filter(keep) == (if keep(t.last()) { t.drop_last().filter(keep).push(t.last()) } else { t.drop_last().filter(keep) }));
            assert(keep(t.last()) == keep_it);
            if keep_it {
                assert(kept@ == before.push(t.last()));
            } else {
                assert(kept@ == before);
            }
            assert(kept@ =~= t.filter(keep));
        }
        i = i + 1;
    }
    proof {
        assert(orig.take(i as int) =~= orig);
    }
    *conns = kept;
}

/// What happens to a connection handed back to the pool.
#[derive(Debug, Clone, Copy, PartialEq, Eq, Structural)]
pub enum ReleaseAction {
    /// The pool is closed: the connection is dropped and nothing else is done.
    Discard,
    /// The connection has outlived its lifetime: it is dropped and its slot
    /// is freed for a new connection.
    FreeSlot,
    /// The connection goes back to the idle list and its slot is freed.
    ReturnIdle,
}

/// What to do with a connection made at `created` that is handed back at
/// `now` to a pool that is `closed` or open.
pub fn release_action(closed: bool, created: &Instant, now: &Instant, config: &PoolConfig) -> (r: ReleaseAction)
    ensures
        closed ==> r == ReleaseAction::Discard,
        !closed && outlived(*created, *now, config.max_lifetime) ==> r == ReleaseAction::FreeSlot,
        !closed && !outlived(*created, *now, config.max_lifetime) ==> r == ReleaseAction::ReturnIdle,
{
    if closed {
        ReleaseAction::Discard
    } else if elapsed_exceeds(created, now, &config.max_lifetime) {
        ReleaseAction::FreeSlot
    } else {
        ReleaseAction::ReturnIdle
    }
}

/// A connection that is taken from the pool may be used, and cleaning up the
/// pool at the same instant keeps it: what `take_reusable` hands out passes
/// the test that `retain_reusable` applies.
pub proof fn lemma_taken_connection_survives_cleanup<C>(
    conns: Seq<IdleConnection<C>>,
    now: Instant,
    config: PoolConfig,
)
    requires
        last_reusable(conns, now, config) >= 0,
    ensures
        reusable(conns[last_reusable(conns, now, config)], now, config),
        conns.filter(|c: IdleConnection<C>| reusable(c, now, config)).contains(
            conns[last_reusable(conns, now, config)],
        ),
{
    lemma_last_reusable_bounds(conns, now, config);
    let k = last_reusable(conns, now, config);
    let p = |c: IdleConnection<C>| reusable(c, now, config);
    conns.lemma_filter_contains(p, k);
}

} // verus!
