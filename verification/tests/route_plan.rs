use zterm_daemon::route::{
    cached_route_fallback, merge_relay_sources, plan_relay_candidates, KnownDeviceRoute, RouteCacheDiagnostic,
    RouteCandidate, RouteSource,
};
use zterm_daemon::error::DomainErrorKind;

fn relay(url: &str) -> String {
    url.to_string()
}

fn pairs(plan: &[RouteCandidate]) -> Vec<(RouteSource, &str)> {
    plan.iter().map(|candidate| (candidate.source, candidate.relay_hint.as_str())).collect()
}

#[test]
fn fallback_order_is_stable_and_deduplicated() {
    let result = merge_relay_sources(
        vec![relay("https://fresh.example")],
        vec![relay("https://fresh.example"), relay("https://cache.example")],
        vec![relay("https://ticket.example")],
        4,
    );
    assert_eq!(
        pairs(&result),
        vec![
            (RouteSource::FreshLookup, "https://fresh.example"),
            (RouteSource::VerifiedCache, "https://cache.example"),
            (RouteSource::TransientTicket, "https://ticket.example"),
        ]
    );
}

#[test]
fn full_fresh_source_does_not_starve_cache_or_ticket_fallback() {
    let result = merge_relay_sources(
        vec![
            relay("https://fresh-a.example"),
            relay("https://fresh-b.example"),
            relay("https://fresh-over-limit.example"),
        ],
        vec![
            relay("https://cache-a.example"),
            relay("https://cache-b.example"),
            relay("https://cache-over-limit.example"),
        ],
        vec![
            relay("https://ticket-a.example"),
            relay("https://ticket-b.example"),
            relay("https://ticket-over-limit.example"),
        ],
        2,
    );
    assert_eq!(
        pairs(&result),
        vec![
            (RouteSource::FreshLookup, "https://fresh-a.example"),
            (RouteSource::FreshLookup, "https://fresh-b.example"),
            (RouteSource::VerifiedCache, "https://cache-a.example"),
            (RouteSource::VerifiedCache, "https://cache-b.example"),
            (RouteSource::TransientTicket, "https://ticket-a.example"),
            (RouteSource::TransientTicket, "https://ticket-b.example"),
        ]
    );
}

#[test]
fn cache_projection_retains_unknown_version_diagnostic_but_ignores_route() {
    let unsupported = KnownDeviceRoute {
        route_cache: None,
        route_cache_diagnostic: Some(RouteCacheDiagnostic::UnsupportedVersion { actual: 99 }),
    };
    let fallback = cached_route_fallback(Some(unsupported));
    assert!(fallback.relay_hints.is_empty());
    assert_eq!(fallback.diagnostic, Some(RouteCacheDiagnostic::UnsupportedVersion { actual: 99 }));

    let supported = KnownDeviceRoute {
        route_cache: Some(vec![relay("https://cache.example")]),
        route_cache_diagnostic: None,
    };
    let fallback = cached_route_fallback(Some(supported));
    assert_eq!(fallback.relay_hints, vec![relay("https://cache.example")]);
    assert_eq!(fallback.diagnostic, None);
}

#[test]
fn candidate_planning_preserves_fallback_order_and_profile_bytes() {
    let candidates = plan_relay_candidates(
        vec![relay("https://fresh.example")],
        vec![relay("https://fresh.example"), relay("https://cache.example")],
        vec![relay("https://ticket.example")],
        4,
    )
    .expect("candidate plan");
    assert_eq!(
        pairs(&candidates),
        vec![
            (RouteSource::FreshLookup, "https://fresh.example"),
            (RouteSource::VerifiedCache, "https://cache.example"),
            (RouteSource::TransientTicket, "https://ticket.example"),
        ]
    );
}

#[test]
fn zero_candidate_bound_fails_closed_without_allocating_a_route() {
    assert!(merge_relay_sources(vec![relay("https://fresh.example")], vec![], vec![], 0).is_empty());
}

#[test]
fn empty_candidate_plan_is_address_unavailable() {
    let error = plan_relay_candidates(vec![], vec![], vec![], 4).expect_err("no relay candidate");
    assert_eq!(error.kind, DomainErrorKind::AddressUnavailable);
}

#[test]
fn cache_projection_of_unknown_device_is_empty() {
    let fallback = cached_route_fallback(None);
    assert!(fallback.relay_hints.is_empty());
    assert_eq!(fallback.diagnostic, None);
}

#[test]
fn duplicate_within_one_source_is_planned_once() {
    let result = merge_relay_sources(
        vec![relay("https://a.example"), relay("https://a.example"), relay("https://b.example")],
        vec![],
        vec![],
        2,
    );
    assert_eq!(
        pairs(&result),
        vec![(RouteSource::FreshLookup, "https://a.example"), (RouteSource::FreshLookup, "https://b.example")]
    );
}
