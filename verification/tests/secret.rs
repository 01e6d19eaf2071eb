use philo::error::ProviderConfigFailure;
use philo::provider::secret::{EnvironmentSecretResolver, SecretReference};

#[test]
fn a_reference_carries_only_a_name_and_resolution_stays_explicit() {
    let reference = SecretReference::environment_variable("PHILO_ABSENT_SECRET").unwrap();
    assert_eq!(reference.name(), "PHILO_ABSENT_SECRET");
    assert!(format!("{reference:?}").contains("PHILO_ABSENT_SECRET"));

    let error = match EnvironmentSecretResolver.resolve_value(&reference, None) {
        Ok(_) => panic!("an absent variable must not resolve"),
        Err(error) => error,
    };
    assert_eq!(error.reason(), ProviderConfigFailure::SecretUnavailable);
}

#[test]
fn invalid_variable_names_fail_closed() {
    for name in ["", "1leading-digit", "has space", "has-dash"] {
        assert!(SecretReference::environment_variable(name).is_err(), "{name}");
    }
    assert!(SecretReference::environment_variable("_OK_1").is_ok());
}
