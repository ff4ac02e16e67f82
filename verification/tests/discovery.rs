use nimbus::discovery::{
    cache_entry_fresh, lookup_strategy, offer_order, srv_offer_order, srv_rank, LookupStrategy, ResolveError,
};
use std::time::{Duration, Instant};

#[test]
fn resolve_error_messages() {
    assert_eq!(ResolveError::NotFound("svc".to_string()).to_string(), "service not found: svc");
    assert_eq!(ResolveError::Dns("x".to_string()).to_string(), "dns error: x");
    assert_eq!(ResolveError::Registry("y".to_string()).to_string(), "registry error: y");
    assert_eq!(ResolveError::Timeout.to_string(), "resolution timed out");
    assert_eq!(ResolveError::NoHealthyEndpoints.to_string(), "no healthy endpoints");
}

#[test]
fn lookup_strategies() {
    assert_eq!(lookup_strategy("_rpc._tcp.example.com", true), LookupStrategy::Srv);
    assert_eq!(lookup_strategy("_rpc._tcp.example.com", false), LookupStrategy::Srv);
    assert_eq!(lookup_strategy("api.example.com", true), LookupStrategy::Host);
    assert_eq!(lookup_strategy("api.example.com", false), LookupStrategy::Srv);
    assert_eq!(lookup_strategy("", true), LookupStrategy::Host);
}

#[test]
fn srv_weight_is_at_least_one() {
    assert_eq!(srv_rank(3, 0), (3, 1));
    assert_eq!(srv_rank(0, 50), (0, 50));
}

#[test]
fn endpoints_ordered_by_priority_then_weight_stably() {
    let ranks = vec![(10, 5), (0, 1), (10, 50), (0, 1), (0, 7)];
    assert_eq!(offer_order(&ranks), vec![4, 1, 3, 2, 0]);
    assert_eq!(offer_order(&[]), Vec::<usize>::new());
}

#[test]
fn srv_order_fails_when_nothing_found() {
    match srv_offer_order("_x._tcp", &[]) {
        Err(ResolveError::NotFound(name)) => assert_eq!(name, "_x._tcp"),
        _ => panic!("expected NotFound"),
    }
    assert_eq!(srv_offer_order("_x._tcp", &[(1, 1), (0, 1)]).unwrap(), vec![1, 0]);
}

#[test]
fn cache_freshness() {
    let now = Instant::now();
    let later = now + Duration::from_secs(60);
    assert!(cache_entry_fresh(&later, &now));
    assert!(!cache_entry_fresh(&now, &now));
    assert!(!cache_entry_fresh(&now, &later));
}
