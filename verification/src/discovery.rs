//! Service discovery: the errors of resolution, the choice between SRV and
//! host lookups, and the order in which resolved endpoints are offered.
use vstd::prelude::*;
use std::time::Instant;
use vstd::string::*;

use crate::clock::{instant_not_after, instant_ticks};

verus! {

/// Error type for resolution operations.
#[derive(Debug, Clone)]
pub enum ResolveError {
    /// Service not found.
    NotFound(String),
    /// DNS resolution failed.
    Dns(String),
    /// Registry communication failed.
    Registry(String),
    /// Resolution timed out.
    Timeout,
    /// No healthy endpoints available.
    NoHealthyEndpoints,
}

/// The message of a resolution error.
pub open spec fn resolve_error_text(e: ResolveError) -> Seq<char> {
    match e {
        ResolveError::NotFound(s) => "service not found: "@ + s@,
        ResolveError::Dns(s) => "dns error: "@ + s@,
        ResolveError::Registry(s) => "registry error: "@ + s@,
        ResolveError::Timeout => "resolution timed out"@,
        ResolveError::NoHealthyEndpoints => "no healthy endpoints"@,
    }
}

impl ResolveError {
    /// The error's message.
    pub fn to_string(&self) -> (r: String)
        ensures
            r@ == resolve_error_text(*self),
    {
        let mut s = String::new();
        match self {
            ResolveError::NotFound(m) => {
                s.append("service not found: ");
                s.append(m.as_str());
            },
            ResolveError::Dns(m) => {
                s.append("dns error: ");
                s.append(m.as_str());
            },
            ResolveError::Registry(m) => {
                s.append("registry error: ");
                s.append(m.as_str());
            },
            ResolveError::Timeout => s.append("resolution timed out"),
            ResolveError::NoHealthyEndpoints => s.append("no healthy endpoints"),
        }
        proof {
            assert(s@ =~= resolve_error_text(*self));
        }
        s
    }
}

/// Which DNS lookup resolves a service name.
#[derive(Debug, Clone, Copy, PartialEq, Eq, Structural)]
pub enum LookupStrategy {
    /// Look up SRV records, then the addresses of their targets.
    Srv,
    /// Look up the name's addresses and pair them with the default port.
    Host,
}

/// A name that starts with `_` is an SRV name; any other name is looked up as
/// a host when a default port is configured, and as an SRV name otherwise.
pub open spec fn strategy_for(service: Seq<char>, has_default_port: bool) -> LookupStrategy {
    if service.len() > 0 && service[0] == '_' {
        LookupStrategy::Srv
    } else if has_default_port {
        LookupStrategy::Host
    } else {
        LookupStrategy::Srv
    }
}

/// Chooses the lookup for `service`; see `strategy_for`.
pub fn lookup_strategy(service: &str, has_default_port: bool) -> (r: LookupStrategy)
    ensures
        r == strategy_for(service@, has_default_port),
{
    if service.unicode_len() > 0 && service.get_char(0) == '_' {
        LookupStrategy::Srv
    } else if has_default_port {
        LookupStrategy::Host
    } else {
        LookupStrategy::Srv
    }
}

/// The priority and weight under which an address from an SRV record is
/// offered: the record's priority, and its weight raised to at least 1.
pub fn srv_rank(priority: u16, weight: u16) -> (r: (u32, u32))
    ensures
        r.0 == priority,
        r.1 == (if weight == 0 { 1 } else { weight as int }),
{
    let w: u32 = if weight == 0 { 1 } else { weight as u32 };
    (priority as u32, w)
}

/// Whether the endpoint at index `a` is offered before the one at index `b`:
/// a lower priority first, then a higher weight, and endpoints that rank the
/// same keep the order in which they were found.
pub open spec fn offered_before(ranks: Seq<(u32, u32)>, a: int, b: int) -> bool {
    let (pa, wa) = ranks[a];
    let (pb, wb) = ranks[b];
    pa < pb || (pa == pb && (wa > wb || (wa == wb && a < b)))
}

/// Whether `order` lists every index of `ranks` once, in the order in which
/// the endpoints are offered.
pub open spec fn is_offer_order(ranks: Seq<(u32, u32)>, order: Seq<usize>) -> bool {
    &&& order.len() == ranks.len()
    &&& order.no_duplicates()
    &&& forall|k: int| 0 <= k < order.len() ==> #[trigger] order[k] < ranks.len()
    &&& forall|i: int, j: int|
        0 <= i < j < order.len() ==> offered_before(ranks, #[trigger] order[i] as int, #[trigger] order[j] as int)
}

proof fn lemma_offered_before_total(ranks: Seq<(u32, u32)>, a: int, b: int)
    requires
        a != b,
    ensures
        offered_before(ranks, a, b) || offered_before(ranks, b, a),
        !(offered_before(ranks, a, b) && offered_before(ranks, b, a)),
{
}

proof fn lemma_offered_before_transitive(ranks: Seq<(u32, u32)>, a: int, b: int, c: int)
    requires
        offered_before(ranks, a, b),
        offered_before(ranks, b, c),
    ensures
        offered_before(ranks, a, c),
{
}

/// The indices below `n`.
spec fn indices_below(n: nat) -> Set<usize> {
    Set::new(|x: usize| (x as int) < n)
}

proof fn lemma_indices_below(n: nat)
    requires
        n <= usize::MAX + 1,
    ensures
        indices_below(n).finite(),
        indices_below(n).len() == n,
    decreases n,
{
    if n == 0 {
        assert(indices_below(n) =~= Set::<usize>::empty());
    } else {
        lemma_indices_below((n - 1) as nat);
        assert(indices_below((n - 1) as nat).insert((n - 1) as usize) =~= indices_below(n));
    }
}

/// An offer order lists exactly the indices of `ranks`.
proof fn lemma_offer_order_contents(ranks: Seq<(u32, u32)>, order: Seq<usize>)
    requires
        is_offer_order(ranks, order),
        ranks.len() <= usize::MAX + 1,
    ensures
        forall|x: usize| #[trigger] order.contains(x) <==> (x as int) < ranks.len(),
{
    broadcast use vstd::seq_lib::seq_to_set_is_finite;

    let n = ranks.len();
    lemma_indices_below(n);
    order.unique_seq_to_set();
    assert forall|x: usize| #[trigger] order.to_set().contains(x) implies indices_below(n).contains(x) by {
        let k = choose|k: int| 0 <= k < order.len() && order[k] == x;
        assert(order[k] < n);
    }
    vstd::set_lib::lemma_subset_equality(order.to_set(), indices_below(n));
    assert forall|x: usize| #[trigger] order.contains(x) <==> (x as int) < ranks.len() by {
        assert(order.to_set().contains(x) == order.contains(x));
        assert(indices_below(n).contains(x) == ((x as int) < n));
    }
}

/// Two sequences without repeats, each sorted by `offered_before`, that hold
/// the same indices are the same sequence.
proof fn lemma_sorted_unique(ranks: Seq<(u32, u32)>, a: Seq<usize>, b: Seq<usize>)
    requires
        a.no_duplicates(),
        b.no_duplicates(),
        forall|i: int, j: int|
            0 <= i < j < a.len() ==> offered_before(ranks, #[trigger] a[i] as int, #[trigger] a[j] as int),
        forall|i: int, j: int|
            0 <= i < j < b.len() ==> offered_before(ranks, #[trigger] b[i] as int, #[trigger] b[j] as int),
        forall|x: usize| #![trigger a.contains(x)] #![trigger b.contains(x)] a.contains(x) <==> b.contains(x),
    ensures
        a == b,
    decreases a.len(),
{
    if a.len() == 0 {
        if b.len() > 0 {
            assert(b.contains(b[0]));
            assert(a.contains(b[0]));
        }
        assert(a =~= b);
    } else {
        assert(a.contains(a[0]));
        assert(b.contains(a[0]));
        let j = choose|j: int| 0 <= j < b.len() && b[j] == a[0];
        assert(b.contains(b[0]));
        assert(a.contains(b[0]));
        let i = choose|i: int| 0 <= i < a.len() && a[i] == b[0];
        if j > 0 {
            assert(b[0] != b[j]);
            assert(i > 0);
            assert(offered_before(ranks, b[0] as int, b[j] as int));
            assert(offered_before(ranks, a[0] as int, a[i] as int));
            lemma_offered_before_total(ranks, a[0] as int, a[i] as int);
        }
        assert(a[0] == b[0]);
        let ta = a.drop_first();
        let tb = b.drop_first();
        assert forall|x: usize| #![trigger ta.contains(x)] #![trigger tb.contains(x)] ta.contains(x) <==> tb.contains(x) by {
            if ta.contains(x) {
                let k = choose|k: int| 0 <= k < ta.len() && ta[k] == x;
                assert(a[k + 1] == x);
                assert(x != a[0]);
                assert(a.contains(x));
                let m = choose|m: int| 0 <= m < b.len() && b[m] == x;
                assert(m != 0);
                assert(tb[m - 1] == x);
            }
            if tb.contains(x) {
                let k = choose|k: int| 0 <= k < tb.len() && tb[k] == x;
                assert(b[k + 1] == x);
                assert(x != b[0]);
                assert(b.contains(x));
                let m = choose|m: int| 0 <= m < a.len() && a[m] == x;
                assert(m != 0);
                assert(ta[m - 1] == x);
            }
        }
        assert forall|p: int, q: int| 0 <= p < q < ta.len() implies offered_before(
            ranks,
            #[trigger] ta[p] as int,
            #[trigger] ta[q] as int,
        ) by {
            assert(ta[p] == a[p + 1] && ta[q] == a[q + 1]);
        }
        assert forall|p: int, q: int| 0 <= p < q < tb.len() implies offered_before(
            ranks,
            #[trigger] tb[p] as int,
            #[trigger] tb[q] as int,
        ) by {
            assert(tb[p] == b[p + 1] && tb[q] == b[q + 1]);
        }
        assert forall|p: int, q: int| 0 <= p < q < ta.len() implies ta[p] != ta[q] by {
            assert(ta[p] == a[p + 1] && ta[q] == a[q + 1]);
        }
        assert forall|p: int, q: int| 0 <= p < q < tb.len() implies tb[p] != tb[q] by {
            assert(tb[p] == b[p + 1] && tb[q] == b[q + 1]);
        }
        lemma_sorted_unique(ranks, ta, tb);
        assert(a =~= b) by {
            assert forall|k: int| 0 <= k < a.len() implies a[k] == b[k] by {
                if k > 0 {
                    assert(a[k] == ta[k - 1] && b[k] == tb[k - 1]);
                }
            }
        }
    }
}

/// Endpoints are offered in one order only: the ranks alone decide it, so
/// two orders that both meet `is_offer_order` for the same ranks are equal.
pub proof fn lemma_offer_order_unique(ranks: Seq<(u32, u32)>, a: Seq<usize>, b: Seq<usize>)
    requires
        is_offer_order(ranks, a),
        is_offer_order(ranks, b),
        ranks.len() <= usize::MAX + 1,
    ensures
        a == b,
{
    lemma_offer_order_contents(ranks, a);
    lemma_offer_order_contents(ranks, b);
    assert forall|x: usize| #![trigger a.contains(x)] #![trigger b.contains(x)] a.contains(x) <==> b.contains(x) by {
    }
    lemma_sorted_unique(ranks, a, b);
}

/// How an offer order ranks endpoints, stated over their priorities and
/// weights: of two endpoints, the one of lower priority comes first; of two
/// with the same priority, the one of higher weight comes first; and of two
/// with the same priority and weight, the one found first comes first.
pub proof fn lemma_offer_order_by_rank(ranks: Seq<(u32, u32)>, order: Seq<usize>, i: int, j: int)
    requires
        is_offer_order(ranks, order),
        0 <= i < order.len(),
        0 <= j < order.len(),
    ensures
        ranks[order[i] as int].0 < ranks[order[j] as int].0 ==> i < j,
        ranks[order[i] as int].0 == ranks[order[j] as int].0 && ranks[order[i] as int].1 > ranks[order[j] as int].1
            ==> i < j,
        ranks[order[i] as int] == ranks[order[j] as int] && order[i] < order[j] ==> i < j,
{
    if j < i {
        assert(offered_before(ranks, order[j] as int, order[i] as int));
    }
}

/// Whether the endpoint at index `a` is offered before the one at index `b`.
fn rank_before(ranks: &[(u32, u32)], a: usize, b: usize) -> (r: bool)
    requires
        a < ranks@.len(),
        b < ranks@.len(),
    ensures
        r == offered_before(ranks@, a as int, b as int),
{
    let (pa, wa) = ranks[a];
    let (pb, wb) = ranks[b];
    pa < pb || (pa == pb && (wa > wb || (wa == wb && a < b)))
}

/// The indices of `ranks` in the order in which the endpoints are offered: by
/// priority (lowest first), then by weight (highest first), keeping the order
/// found among endpoints that rank the same.
pub fn offer_order(ranks: &[(u32, u32)]) -> (order: Vec<usize>)
    ensures
        is_offer_order(ranks@, order@),
{
    let n = ranks.len();
    let mut order: Vec<usize> = Vec::new();
    let mut i: usize = 0;
    while i < n
        invariant
            n == ranks@.len(),
            i <= n,
            order@.len() == i,
            order@.no_duplicates(),
            forall|k: int| 0 <= k < order@.len() ==> #[trigger] order@[k] < i,
            forall|x: int, y: int|
                0 <= x < y < order@.len() ==> offered_before(ranks@, #[trigger] order@[x] as int, #[trigger] order@[y] as int),
        decreases n - i,
    {
        let mut k: usize = 0;
        while k < order.len() && rank_before(ranks, order[k], i)
            invariant
                n == ranks@.len(),
                i < n,
                k <= order@.len(),
                forall|m: int| 0 <= m < order@.len() ==> #[trigger] order@[m] < i,
                forall|m: int| 0 <= m < k ==> offered_before(ranks@, #[trigger] order@[m] as int, i as int),
            decreases order@.len() - k,
        {
            k = k + 1;
        }
        proof {
            if k < order@.len() {
                lemma_offered_before_total(ranks@, order@[k as int] as int, i as int);
                assert forall|m: int| k <= m < order@.len() implies offered_before(ranks@, i as int, #[trigger] order@[m] as int) by {
                    if m > k {
                        lemma_offered_before_transitive(ranks@, i as int, order@[k as int] as int, order@[m] as int);
                    }
                }
            }
        }
        let ghost old_order = order@;
        order.insert(k, i);
        proof {
            assert(order@ == old_order.insert(k as int, i));
            assert forall|m: int| 0 <= m < order@.len() implies #[trigger] order@[m] < i + 1 by {
                if m < k {
                    assert(order@[m] == old_order[m]);
                } else if m > k {
                    assert(order@[m] == old_order[m - 1]);
                }
            }
            assert forall|x: int, y: int|
                0 <= x < y < order@.len() implies offered_before(ranks@, #[trigger] order@[x] as int, #[trigger] order@[y] as int) by {
                if y < k {
                    assert(order@[x] == old_order[x] && order@[y] == old_order[y]);
                } else if y == k {
                    assert(order@[x] == old_order[x]);
                } else if x < k {
                    assert(order@[x] == old_order[x] && order@[y] == old_order[y - 1]);
                } else if x == k {
                    assert(order@[y] == old_order[y - 1]);
                } else {
                    assert(order@[x] == old_order[x - 1] && order@[y] == old_order[y - 1]);
                }
            }
            assert forall|x: int, y: int|
                0 <= x < order@.len() && 0 <= y < order@.len() && x != y implies order@[x] != order@[y] by {
                if x != k && y != k {
                    let ox = if x < k { x } else { x - 1 };
                    let oy = if y < k { y } else { y - 1 };
                    assert(order@[x] == old_order[ox] && order@[y] == old_order[oy]);
                } else if x == k {
                    let oy = if y < k { y } else { y - 1 };
                    assert(order@[y] == old_order[oy]);
                } else {
                    let ox = if x < k { x } else { x - 1 };
                    assert(order@[x] == old_order[ox]);
                }
            }
        }
        i = i + 1;
    }
    order
}

/// Orders the endpoints found for an SRV name. Fails with `NotFound(name)`
/// when none was found; otherwise gives their indices in the order in which
/// they are offered.
pub fn srv_offer_order(name: &str, ranks: &[(u32, u32)]) -> (r: Result<Vec<usize>, ResolveError>)
    ensures
        ranks@.len() == 0 <==> r is Err,
        r matches Err(e) ==> (e matches ResolveError::NotFound(s) && s@ == name@),
        r matches Ok(order) ==> is_offer_order(ranks@, order@),
{
    if ranks.len() == 0 {
        return Err(ResolveError::NotFound(name.to_owned()));
    }
    Ok(offer_order(ranks))
}

/// Whether a cache entry that expires at `expires` may still be served at
/// `now`: it must expire strictly later.
pub fn cache_entry_fresh(expires: &Instant, now: &Instant) -> (r: bool)
    ensures
        r == (instant_ticks(*now) < instant_ticks(*expires)),
{
    !instant_not_after(expires, now)
}

} // verus!
