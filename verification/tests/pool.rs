use nimbus::pool::{
    elapsed_exceeds, is_reusable, release_action, retain_reusable, take_reusable, IdleConnection, PoolConfig,
    ReleaseAction,
};
use std::time::{Duration, Instant};

fn idle(id: u32, created: Instant, returned: Instant) -> IdleConnection<u32> {
    IdleConnection { connection: id, created, returned }
}

#[test]
fn pool_config_defaults_and_builders() {
    let d = PoolConfig::default();
    assert_eq!(d.max_connections_per_endpoint, 16);
    assert_eq!(d.min_idle_connections, 2);
    assert_eq!(d.max_lifetime, Duration::from_secs(300));
    assert_eq!(d.idle_timeout, Duration::from_secs(60));
    assert_eq!(d.acquire_timeout, Duration::from_secs(5));
    let c = PoolConfig::new()
        .max_connections(32)
        .min_idle(1)
        .max_lifetime(Duration::from_secs(10))
        .idle_timeout(Duration::from_secs(120));
    assert_eq!(c.max_connections_per_endpoint, 32);
    assert_eq!(c.min_idle_connections, 1);
    assert_eq!(c.max_lifetime, Duration::from_secs(10));
    assert_eq!(c.idle_timeout, Duration::from_secs(120));
}

#[test]
fn elapsed_limits() {
    let t0 = Instant::now();
    let t5 = t0 + Duration::from_secs(5);
    assert!(elapsed_exceeds(&t0, &t5, &Duration::from_secs(4)));
    assert!(!elapsed_exceeds(&t0, &t5, &Duration::from_secs(5)));
    assert!(!elapsed_exceeds(&t5, &t0, &Duration::ZERO));
}

#[test]
fn take_skips_expired_connections_from_the_end() {
    let config = PoolConfig::new().max_lifetime(Duration::from_secs(100)).idle_timeout(Duration::from_secs(10));
    let t0 = Instant::now();
    let now = t0 + Duration::from_secs(50);
    let mut conns = vec![
        idle(1, t0, now),                                  // usable
        idle(2, t0, now - Duration::from_secs(5)),         // usable
        idle(3, t0, now - Duration::from_secs(20)),        // idle too long
        idle(4, now - Duration::from_secs(200), now),      // too old
    ];
    let taken = take_reusable(&mut conns, &now, &config).unwrap();
    assert_eq!(taken.connection, 2);
    assert_eq!(conns.len(), 1);
    assert_eq!(conns[0].connection, 1);
    assert!(is_reusable(&conns[0], &now, &config));
}

#[test]
fn take_from_all_expired_empties_the_list() {
    let config = PoolConfig::new().idle_timeout(Duration::from_secs(1));
    let t0 = Instant::now();
    let now = t0 + Duration::from_secs(5);
    let mut conns = vec![idle(1, t0, t0), idle(2, t0, t0)];
    assert!(take_reusable(&mut conns, &now, &config).is_none());
    assert!(conns.is_empty());
}

#[test]
fn cleanup_keeps_usable_connections_in_order() {
    let config = PoolConfig::new().max_lifetime(Duration::from_secs(100)).idle_timeout(Duration::from_secs(10));
    let t0 = Instant::now();
    let now = t0 + Duration::from_secs(50);
    let mut conns = vec![
        idle(1, t0, now),
        idle(2, t0, now - Duration::from_secs(20)),
        idle(3, t0, now - Duration::from_secs(1)),
    ];
    retain_reusable(&mut conns, &now, &config);
    let ids: Vec<u32> = conns.iter().map(|c| c.connection).collect();
    assert_eq!(ids, vec![1, 3]);
}

#[test]
fn release_actions() {
    let config = PoolConfig::new().max_lifetime(Duration::from_secs(10));
    let t0 = Instant::now();
    let soon = t0 + Duration::from_secs(5);
    let late = t0 + Duration::from_secs(11);
    assert_eq!(release_action(true, &t0, &soon, &config), ReleaseAction::Discard);
    assert_eq!(release_action(false, &t0, &late, &config), ReleaseAction::FreeSlot);
    assert_eq!(release_action(false, &t0, &soon, &config), ReleaseAction::ReturnIdle);
}
