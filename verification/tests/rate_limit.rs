use philo::error::ValidationReason;
use philo::provider::rate_limit::{
    observe_rate_limit, RateLimitHeaderKind, RateLimitHeaderSpec, RateLimitPolicy,
    RateLimitReset, RateLimitSourceKind, RateLimitUnit, RateLimitValue,
};

fn policy() -> RateLimitPolicy {
    RateLimitPolicy::standard_only()
        .with_header(RateLimitHeaderSpec::new("x-ratelimit-remaining-requests", RateLimitHeaderKind::RemainingRequests))
        .unwrap()
        .with_header(RateLimitHeaderSpec::new(
            "x-ratelimit-remaining-tokens",
            RateLimitHeaderKind::RemainingUnits(RateLimitUnit::Tokens),
        ))
        .unwrap()
        .with_header(RateLimitHeaderSpec::new("x-ratelimit-reset", RateLimitHeaderKind::ResetAfterSeconds))
        .unwrap()
        .with_header(RateLimitHeaderSpec::new("x-ratelimit-reset-at", RateLimitHeaderKind::ResetAtUnixSeconds))
        .unwrap()
}

fn headers(pairs: &[(&str, Option<&str>)]) -> Vec<(String, Option<String>)> {
    pairs.iter().map(|(n, v)| (n.to_string(), v.map(str::to_owned))).collect()
}

#[test]
fn declarations_are_unique_and_bounded() {
    let err = policy()
        .with_header(RateLimitHeaderSpec::new("x-ratelimit-reset", RateLimitHeaderKind::RetryAfterSeconds))
        .err()
        .unwrap();
    assert_eq!(err.reason(), ValidationReason::Conflict);
    let mut p = RateLimitPolicy::standard_only();
    for i in 0..16 {
        p = p.with_header(RateLimitHeaderSpec::new(&format!("x-h{i}"), RateLimitHeaderKind::RemainingRequests)).unwrap();
    }
    assert_eq!(p.provider_header_count(), 16);
    let err = p
        .with_header(RateLimitHeaderSpec::new("x-h16", RateLimitHeaderKind::RemainingRequests))
        .err()
        .unwrap();
    assert_eq!(err.reason(), ValidationReason::OutOfRange);
}

#[test]
fn declared_headers_are_parsed_into_typed_values() {
    let observed = observe_rate_limit(
        200,
        &headers(&[
            ("x-ratelimit-remaining-requests", Some("42")),
            ("x-ratelimit-remaining-tokens", Some("1000")),
            ("x-ratelimit-reset", Some("30")),
        ]),
        &policy(),
        RateLimitValue::Unknown,
        1_000,
    );
    assert!(!observed.status_is_rate_limited());
    assert_eq!(observed.remaining_requests(), RateLimitValue::Valid(42));
    match observed.remaining_units() {
        RateLimitValue::Valid(q) => {
            assert_eq!(q.remaining(), 1000);
            assert_eq!(q.unit(), RateLimitUnit::Tokens);
        }
        other => panic!("unexpected {other:?}"),
    }
    assert_eq!(observed.reset(), RateLimitValue::Valid(RateLimitReset::After(30)));
    assert_eq!(observed.source(), RateLimitSourceKind::ProviderProfile);
    assert_eq!(observed.retry_after_delay(), None);
}

#[test]
fn malformed_or_conflicting_values_are_invalid() {
    let p = policy();
    let observed = observe_rate_limit(
        429,
        &headers(&[
            ("x-ratelimit-remaining-requests", Some("-1")),
            ("x-ratelimit-reset", Some("5")),
            ("x-ratelimit-reset-at", Some("2000")),
        ]),
        &p,
        RateLimitValue::Valid(7),
        1_000,
    );
    assert!(observed.status_is_rate_limited());
    assert_eq!(observed.remaining_requests(), RateLimitValue::Invalid);
    assert_eq!(observed.reset(), RateLimitValue::Invalid);
    assert_eq!(observed.source(), RateLimitSourceKind::StandardAndProviderProfile);
    assert_eq!(observed.retry_after_delay(), Some(7));

    let repeated = observe_rate_limit(
        200,
        &headers(&[
            ("x-ratelimit-remaining-requests", Some("3")),
            ("x-ratelimit-remaining-requests", Some("4")),
        ]),
        &p,
        RateLimitValue::Unknown,
        0,
    );
    assert_eq!(repeated.remaining_requests(), RateLimitValue::Invalid);
    let unreadable = observe_rate_limit(
        200,
        &headers(&[("x-ratelimit-remaining-requests", None)]),
        &p,
        RateLimitValue::Unknown,
        0,
    );
    assert_eq!(unreadable.remaining_requests(), RateLimitValue::Invalid);
}

#[test]
fn reset_delays_and_instants_are_bounded_to_one_day() {
    let p = policy();
    let after = observe_rate_limit(200, &headers(&[("x-ratelimit-reset", Some("999999"))]), &p, RateLimitValue::Unknown, 0);
    assert_eq!(after.reset(), RateLimitValue::Valid(RateLimitReset::After(86_400)));
    let at = observe_rate_limit(200, &headers(&[("x-ratelimit-reset-at", Some("1500"))]), &p, RateLimitValue::Unknown, 1_000);
    assert_eq!(at.reset(), RateLimitValue::Valid(RateLimitReset::At(1_500)));
    let past = observe_rate_limit(200, &headers(&[("x-ratelimit-reset-at", Some("10"))]), &p, RateLimitValue::Unknown, 1_000);
    assert_eq!(past.reset(), RateLimitValue::Valid(RateLimitReset::At(1_000)));
    let far = observe_rate_limit(200, &headers(&[("x-ratelimit-reset-at", Some("1000000"))]), &p, RateLimitValue::Unknown, 1_000);
    assert_eq!(far.reset(), RateLimitValue::Valid(RateLimitReset::At(87_400)));
    let none = observe_rate_limit(200, &headers(&[]), &p, RateLimitValue::Unknown, 0);
    assert_eq!(none.source(), RateLimitSourceKind::Standard);
    assert_eq!(none.remaining_requests(), RateLimitValue::Unknown);
}
