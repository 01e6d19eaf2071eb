use philo::domain::ProviderId;
use philo::provider::factory::{ProviderSelectionInput, ProviderSelectionSource, ProviderSelector};

fn id(v: &str) -> ProviderId {
    ProviderId::new(v).unwrap()
}

#[test]
fn the_highest_declared_tier_wins() {
    let all = ProviderSelectionInput::new()
        .with_built_in_profile(id("built-in"))
        .with_provider(id("configured"))
        .with_model_provider(id("model"))
        .with_request_provider(id("request"));
    let s = ProviderSelector::select(&all);
    assert_eq!(s.provider_id().unwrap().as_str(), "request");
    assert_eq!(s.source(), ProviderSelectionSource::RequestExplicit);

    let no_request = ProviderSelectionInput::new()
        .with_built_in_profile(id("built-in"))
        .with_provider(id("configured"))
        .with_model_provider(id("model"));
    let s = ProviderSelector::select(&no_request);
    assert_eq!(s.provider_id().unwrap().as_str(), "model");
    assert_eq!(s.source(), ProviderSelectionSource::ModelExplicit);

    let s = ProviderSelector::select(&ProviderSelectionInput::new().with_provider(id("configured")).with_built_in_profile(id("b")));
    assert_eq!(s.source(), ProviderSelectionSource::ProviderExplicit);
    let s = ProviderSelector::select(&ProviderSelectionInput::new().with_built_in_profile(id("b")));
    assert_eq!(s.source(), ProviderSelectionSource::BuiltInProfile);
}

#[test]
fn nothing_declared_is_undeclared() {
    let s = ProviderSelector::select(&ProviderSelectionInput::new());
    assert!(s.provider_id().is_none());
    assert_eq!(s.source(), ProviderSelectionSource::Undeclared);
}
