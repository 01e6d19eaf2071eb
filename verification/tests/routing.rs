use philo::domain::PolicySource;
use philo::error::{LlmError, ValidationReason};
use philo::provider::compat::routing::{
    ConstraintStrength, DataRetention, OpenRouterRoutingContract, OpenRouterRoutingPatch,
    RoutingFallback, RoutingField, RoutingRegion, RoutingSort, UpstreamId,
};

fn ids(values: &[&str]) -> Vec<UpstreamId> {
    values.iter().map(|v| UpstreamId::new(v).unwrap()).collect()
}

fn profile() -> OpenRouterRoutingPatch {
    OpenRouterRoutingPatch::from_source(PolicySource::ProviderProfile)
}

fn request() -> OpenRouterRoutingPatch {
    OpenRouterRoutingPatch::from_source(PolicySource::Request)
}

fn summary(err: LlmError) -> (String, ValidationReason, String) {
    match err {
        LlmError::Validation(v) => (v.field().to_owned(), v.reason(), v.summary().to_owned()),
        other => panic!("unexpected {other:?}"),
    }
}

#[test]
fn request_values_layer_over_profile_defaults_with_provenance() {
    let contract = OpenRouterRoutingContract::new(profile().with_sort(RoutingSort::Price).with_denied(ids(&["bad"])));
    let resolved = contract
        .resolve(Some(&request().with_sort(RoutingSort::Latency).with_order(ids(&["a", "b"]))))
        .unwrap();
    assert_eq!(resolved.source(RoutingField::Sort), Some(PolicySource::Request));
    assert_eq!(resolved.source(RoutingField::DeniedUpstreams), Some(PolicySource::ProviderProfile));
    assert_eq!(resolved.source(RoutingField::ProviderOrder), Some(PolicySource::Request));
    assert_eq!(resolved.source(RoutingField::Region), None);
    let empty = OpenRouterRoutingContract::new(profile()).resolve(None).unwrap();
    assert!(empty.is_empty());
}

#[test]
fn requests_cannot_relax_hard_profile_constraints() {
    let hard = OpenRouterRoutingContract::new(
        profile().with_data_retention(DataRetention::ZeroDataRetention, ConstraintStrength::Hard),
    );
    let err = hard
        .resolve(Some(&request().with_data_retention(DataRetention::Allowed, ConstraintStrength::Hard)))
        .err()
        .unwrap();
    assert_eq!(summary(err).2, "request cannot relax a hard profile retention constraint");
    assert!(hard
        .resolve(Some(&request().with_data_retention(DataRetention::ZeroDataRetention, ConstraintStrength::Hard)))
        .is_ok());

    let no_fallback = OpenRouterRoutingContract::new(profile().with_fallback(RoutingFallback::new(false, vec![])));
    let err = no_fallback
        .resolve(Some(&request().with_fallback(RoutingFallback::new(true, vec![]))))
        .err()
        .unwrap();
    assert_eq!(summary(err).2, "request cannot enable fallback disabled by profile policy");
}

#[test]
fn upstream_sets_and_orders_must_agree() {
    let contract = OpenRouterRoutingContract::new(profile());
    let err = contract.resolve(Some(&request().with_allowed(vec![]))).err().unwrap();
    assert_eq!(summary(err).2, "allowed upstream set cannot be empty");
    let err = contract.resolve(Some(&request().with_order(ids(&["a", "a"])))).err().unwrap();
    assert_eq!(summary(err).2, "provider order contains duplicates");
    let err = contract
        .resolve(Some(&request().with_allowed(ids(&["a"])).with_denied(ids(&["a"]))))
        .err()
        .unwrap();
    assert_eq!(summary(err).2, "allowed and denied upstream sets overlap");
    let err = contract
        .resolve(Some(&request().with_allowed(ids(&["a"])).with_order(ids(&["b"]))))
        .err()
        .unwrap();
    assert_eq!(summary(err).2, "provider order contains an upstream outside the allowlist");
    let err = contract
        .resolve(Some(&request().with_denied(ids(&["b"])).with_order(ids(&["b"]))))
        .err()
        .unwrap();
    assert_eq!(summary(err).2, "provider order contains a denied upstream");
}

#[test]
fn regions_need_a_reviewed_wire_mapping() {
    let region = RoutingRegion::new("eu-west").unwrap();
    let contract = OpenRouterRoutingContract::new(profile().with_region(region, ConstraintStrength::Preferred));
    let (field, reason, _) = summary(contract.resolve(None).err().unwrap());
    assert_eq!(field, "routing.region");
    assert_eq!(reason, ValidationReason::CapabilityUnsupported);
    let region = RoutingRegion::new("eu-west").unwrap();
    let supported = OpenRouterRoutingContract::new(profile().with_region(region, ConstraintStrength::Hard))
        .with_region_wire_support(true);
    assert!(supported.resolve(None).is_ok());
    let other = RoutingRegion::new("us-east").unwrap();
    let err = supported
        .resolve(Some(&request().with_region(other, ConstraintStrength::Hard)))
        .err()
        .unwrap();
    assert_eq!(summary(err).2, "request cannot replace a hard profile region constraint");
    assert!(RoutingRegion::new("EU").is_err());
    assert!(UpstreamId::new("").is_err());
}
