//! Ordered, deduplicated relay-route fallback planning.
//!
//! Candidates come from three sources in a fixed order: a fresh signed
//! lookup, the verified route cache, then the caller's transient ticket
//! routes. Each source contributes at most `maximum` relays that no earlier
//! candidate already named.

use vstd::prelude::*;

use crate::error::{DaemonError, DomainErrorKind};

verus! {

/// Where a relay candidate came from.
#[derive(Clone, Copy, Debug, PartialEq, Eq, Structural)]
pub enum RouteSource {
    FreshLookup,
    VerifiedCache,
    TransientTicket,
}

/// One planned relay candidate.
#[derive(Debug)]
pub struct RouteCandidate {
    pub source: RouteSource,
    pub relay_hint: String,
}

/// Specification value of a candidate: its source and relay URL.
pub open spec fn candidate_view(candidate: RouteCandidate) -> (RouteSource, Seq<char>) {
    (candidate.source, candidate.relay_hint@)
}

/// Whether some planned candidate already names `hint`.
pub open spec fn plan_names(plan: Seq<(RouteSource, Seq<char>)>, hint: Seq<char>) -> bool {
    exists|i: int| 0 <= i < plan.len() && plan[i].1 == hint
}

/// The plan after offering `hints` of `source`, in order, to `plan`: a hint
/// is added when the source has contributed fewer than `maximum` hints so far
/// and no candidate of the plan names it yet.
pub open spec fn offer_source(
    plan: Seq<(RouteSource, Seq<char>)>,
    source: RouteSource,
    hints: Seq<Seq<char>>,
    maximum: nat,
) -> Seq<(RouteSource, Seq<char>)>
    decreases hints.len(),
{
    if hints.len() == 0 {
        plan
    } else {
        let earlier = offer_source(plan, source, hints.drop_last(), maximum);
        if earlier.len() - plan.len() < maximum && !plan_names(earlier, hints.last()) {
            earlier.push((source, hints.last()))
        } else {
            earlier
        }
    }
}

/// The complete fallback plan: fresh, then cache, then ticket relays.
pub open spec fn merged_plan(
    fresh: Seq<Seq<char>>,
    cache: Seq<Seq<char>>,
    ticket: Seq<Seq<char>>,
    maximum: nat,
) -> Seq<(RouteSource, Seq<char>)> {
    offer_source(
        offer_source(
            offer_source(Seq::empty(), RouteSource::FreshLookup, fresh, maximum),
            RouteSource::VerifiedCache,
            cache,
            maximum,
        ),
        RouteSource::TransientTicket,
        ticket,
        maximum,
    )
}

/// Specification value of a list of relay URLs.
pub open spec fn hints_view(hints: Seq<String>) -> Seq<Seq<char>> {
    hints.map_values(|hint: String| hint@)
}

/// Specification value of a plan.
pub open spec fn plan_view(plan: Seq<RouteCandidate>) -> Seq<(RouteSource, Seq<char>)> {
    plan.map_values(|candidate: RouteCandidate| candidate_view(candidate))
}

/// Whether a planned candidate names `hint`.
fn plan_contains(plan: &Vec<RouteCandidate>, hint: &String) -> (found: bool)
    ensures
        found == plan_names(plan_view(plan@), hint@),
{
    let mut index: usize = 0;
    while index < plan.len()
        invariant
            0 <= index <= plan@.len(),
            forall|j: int| 0 <= j < index ==> plan@[j].relay_hint@ != hint@,
        decreases plan@.len() - index,
    {
        if plan[index].relay_hint == *hint {
            assert(plan_view(plan@)[index as int].1 == hint@);
            return true;
        }
        index = index + 1;
    }
    assert forall|j: int| 0 <= j < plan_view(plan@).len() implies plan_view(plan@)[j].1 != hint@ by {
        assert(plan_view(plan@)[j].1 == plan@[j].relay_hint@);
    }
    false
}

/// Offers the hints of one source to the plan.
fn offer_source_exec(plan: &mut Vec<RouteCandidate>, source: RouteSource, hints: &Vec<String>, maximum: usize)
    ensures
        plan_view(final(plan)@) == offer_source(plan_view(old(plan)@), source, hints_view(hints@), maximum as nat),
{
    let ghost start = plan_view(plan@);
    let mut added: usize = 0;
    let mut index: usize = 0;
    while index < hints.len()
        invariant
            0 <= index <= hints@.len(),
            plan_view(plan@) == offer_source(start, source, hints_view(hints@.subrange(0, index as int)), maximum as nat),
            added as int == plan_view(plan@).len() - start.len(),
            added <= index,
        decreases hints@.len() - index,
    {
        proof {
            let prefix = hints@.subrange(0, index + 1);
            assert(hints_view(prefix).drop_last() =~= hints_view(hints@.subrange(0, index as int)));
            assert(hints_view(prefix).last() == hints@[index as int]@);
        }
        if added < maximum && !plan_contains(plan, &hints[index]) {
            let ghost before = plan@;
            plan.push(RouteCandidate { source, relay_hint: hints[index].clone() });
            added = added + 1;
            assert(plan_view(plan@) =~= plan_view(before).push((source, hints@[index as int]@)));
        }
        index = index + 1;
    }
    assert(hints@.subrange(0, hints@.len() as int) =~= hints@);
}

/// Merges the three relay sources into the ordered, deduplicated fallback plan.
pub fn merge_relay_sources(fresh: Vec<String>, cache: Vec<String>, ticket: Vec<String>, maximum: usize) -> (plan: Vec<RouteCandidate>)
    ensures
        plan_view(plan@) == merged_plan(hints_view(fresh@), hints_view(cache@), hints_view(ticket@), maximum as nat),
{
    let mut plan: Vec<RouteCandidate> = Vec::new();
    assert(plan_view(plan@) =~= Seq::<(RouteSource, Seq<char>)>::empty());
    offer_source_exec(&mut plan, RouteSource::FreshLookup, &fresh, maximum);
    offer_source_exec(&mut plan, RouteSource::VerifiedCache, &cache, maximum);
    offer_source_exec(&mut plan, RouteSource::TransientTicket, &ticket, maximum);
    plan
}

/// Plans relay candidates and fails closed with `AddressUnavailable` when no
/// source yields one.
pub fn plan_relay_candidates(fresh: Vec<String>, cache: Vec<String>, ticket: Vec<String>, maximum: usize) -> (result: Result<Vec<RouteCandidate>, DaemonError>)
    ensures
        match result {
            Ok(plan) => plan_view(plan@) == merged_plan(hints_view(fresh@), hints_view(cache@), hints_view(ticket@), maximum as nat)
                && plan@.len() > 0,
            Err(error) => error.kind == DomainErrorKind::AddressUnavailable
                && merged_plan(hints_view(fresh@), hints_view(cache@), hints_view(ticket@), maximum as nat).len() == 0,
        },
{
    let plan = merge_relay_sources(fresh, cache, ticket, maximum);
    if plan.len() == 0 {
        Err(DaemonError::new(DomainErrorKind::AddressUnavailable, "no relay route is available for the target device"))
    } else {
        Ok(plan)
    }
}

/// No relay URL appears twice in a plan.
pub open spec fn plan_distinct(plan: Seq<(RouteSource, Seq<char>)>) -> bool {
    forall|i: int, j: int| 0 <= i < j < plan.len() ==> plan[i].1 != plan[j].1
}

/// What offering one source does to a plan: it only appends, appends at most
/// `maximum` entries, each labelled with the source and drawn from its hints,
/// and never repeats a relay URL.
pub proof fn lemma_offer_source(
    plan: Seq<(RouteSource, Seq<char>)>,
    source: RouteSource,
    hints: Seq<Seq<char>>,
    maximum: nat,
)
    ensures
        offer_source(plan, source, hints, maximum).len() >= plan.len(),
        offer_source(plan, source, hints, maximum).len() <= plan.len() + maximum,
        offer_source(plan, source, hints, maximum).subrange(0, plan.len() as int) == plan,
        forall|i: int| plan.len() <= i < offer_source(plan, source, hints, maximum).len()
            ==> (#[trigger] offer_source(plan, source, hints, maximum)[i]).0 == source
                && hints.contains(offer_source(plan, source, hints, maximum)[i].1),
        plan_distinct(plan) ==> plan_distinct(offer_source(plan, source, hints, maximum)),
    decreases hints.len(),
{
    if hints.len() > 0 {
        let rest = hints.drop_last();
        lemma_offer_source(plan, source, rest, maximum);
        let earlier = offer_source(plan, source, rest, maximum);
        let result = offer_source(plan, source, hints, maximum);
        assert forall|i: int| plan.len() <= i < result.len() implies (#[trigger] result[i]).0 == source && hints.contains(result[i].1) by {
            if i < earlier.len() {
                assert(result[i] == earlier[i]);
                assert(rest.contains(earlier[i].1));
                let k = choose|k: int| 0 <= k < rest.len() && rest[k] == earlier[i].1;
                assert(hints[k] == rest[k]);
            } else {
                assert(hints[hints.len() - 1] == hints.last());
            }
        }
        assert(result.subrange(0, plan.len() as int) =~= earlier.subrange(0, plan.len() as int));
        if plan_distinct(plan) {
            assert forall|i: int, j: int| 0 <= i < j < result.len() implies result[i].1 != result[j].1 by {
                if j < earlier.len() {
                    assert(result[i] == earlier[i]);
                    assert(result[j] == earlier[j]);
                } else {
                    assert(result[i] == earlier[i]);
                }
            }
        }
    }
}

/// Law: a fallback plan names each relay at most once, takes at most
/// `maximum` relays from each source, lists every fresh candidate before every
/// cached one and every cached one before every ticket one, and draws each
/// relay from the list of its own source. A zero bound plans nothing.
pub proof fn law_fallback_plan_is_ordered_bounded_and_deduplicated(
    fresh: Seq<Seq<char>>,
    cache: Seq<Seq<char>>,
    ticket: Seq<Seq<char>>,
    maximum: nat,
)
    ensures
        plan_distinct(merged_plan(fresh, cache, ticket, maximum)),
        merged_plan(fresh, cache, ticket, maximum).len() <= 3 * maximum,
        maximum == 0 ==> merged_plan(fresh, cache, ticket, maximum).len() == 0,
        forall|i: int, j: int| 0 <= i < j < merged_plan(fresh, cache, ticket, maximum).len()
            ==> source_rank((#[trigger] merged_plan(fresh, cache, ticket, maximum)[i]).0)
                <= source_rank((#[trigger] merged_plan(fresh, cache, ticket, maximum)[j]).0),
        forall|i: int| 0 <= i < merged_plan(fresh, cache, ticket, maximum).len()
            ==> source_hints((#[trigger] merged_plan(fresh, cache, ticket, maximum)[i]).0, fresh, cache, ticket)
                .contains(merged_plan(fresh, cache, ticket, maximum)[i].1),
{
    let empty = Seq::<(RouteSource, Seq<char>)>::empty();
    lemma_offer_source(empty, RouteSource::FreshLookup, fresh, maximum);
    let first = offer_source(empty, RouteSource::FreshLookup, fresh, maximum);
    lemma_offer_source(first, RouteSource::VerifiedCache, cache, maximum);
    let second = offer_source(first, RouteSource::VerifiedCache, cache, maximum);
    lemma_offer_source(second, RouteSource::TransientTicket, ticket, maximum);
    let third = offer_source(second, RouteSource::TransientTicket, ticket, maximum);
    assert forall|i: int| 0 <= i < third.len() implies
        (i < first.len() ==> (#[trigger] third[i]).0 == RouteSource::FreshLookup && fresh.contains(third[i].1))
        && (first.len() <= i < second.len() ==> third[i].0 == RouteSource::VerifiedCache && cache.contains(third[i].1))
        && (second.len() <= i ==> third[i].0 == RouteSource::TransientTicket && ticket.contains(third[i].1)) by {
        if i < second.len() {
            assert(third.subrange(0, second.len() as int)[i] == second[i]);
            if i < first.len() {
                assert(second.subrange(0, first.len() as int)[i] == first[i]);
            }
        }
    }
}

/// Rank of a source in the fallback order.
pub open spec fn source_rank(source: RouteSource) -> int {
    match source {
        RouteSource::FreshLookup => 0,
        RouteSource::VerifiedCache => 1,
        RouteSource::TransientTicket => 2,
    }
}

/// The hint list that feeds a source.
pub open spec fn source_hints(source: RouteSource, fresh: Seq<Seq<char>>, cache: Seq<Seq<char>>, ticket: Seq<Seq<char>>) -> Seq<Seq<char>> {
    match source {
        RouteSource::FreshLookup => fresh,
        RouteSource::VerifiedCache => cache,
        RouteSource::TransientTicket => ticket,
    }
}

/// Diagnostic retained from an unusable route cache row.
#[derive(Clone, Copy, Debug, PartialEq, Eq, Structural)]
pub enum RouteCacheDiagnostic {
    /// The cache row uses a format version this daemon does not read.
    UnsupportedVersion { actual: u32 },
}

/// The route-cache part of a known device row.
#[derive(Debug)]
pub struct KnownDeviceRoute {
    pub route_cache: Option<Vec<String>>,
    pub route_cache_diagnostic: Option<RouteCacheDiagnostic>,
}

/// Cached relays usable as fallback, and the retained cache diagnostic.
#[derive(Debug)]
pub struct CachedRouteFallback {
    pub relay_hints: Vec<String>,
    pub diagnostic: Option<RouteCacheDiagnostic>,
}

/// Projects a known device row onto its cached fallback relays: an absent row
/// or an absent cache contributes no relay, and the diagnostic is retained.
pub fn cached_route_fallback(known: Option<KnownDeviceRoute>) -> (fallback: CachedRouteFallback)
    ensures
        match known {
            Some(row) => fallback.diagnostic == row.route_cache_diagnostic
                && match row.route_cache {
                    Some(hints) => fallback.relay_hints@ == hints@,
                    None => fallback.relay_hints@.len() == 0,
                },
            None => fallback.diagnostic is None && fallback.relay_hints@.len() == 0,
        },
{
    match known {
        Some(row) => CachedRouteFallback {
            relay_hints: match row.route_cache {
                Some(hints) => hints,
                None => Vec::new(),
            },
            diagnostic: row.route_cache_diagnostic,
        },
        None => CachedRouteFallback { relay_hints: Vec::new(), diagnostic: None },
    }
}

} // verus!
