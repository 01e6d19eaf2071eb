use philo::provider::endpoint::audience::CredentialBinding;
use philo::provider::endpoint::config::{resolve_official, resolve_test_only, EndpointConfig};

#[test]
fn exact_https_binding_accepts_paths_only_within_one_origin() {
    let first =
        resolve_official(&EndpointConfig::absolute("https://llm.example.com/v1/messages").unwrap())
            .unwrap();
    let second =
        resolve_official(&EndpointConfig::absolute("https://llm.example.com/v2/chat").unwrap())
            .unwrap();
    let foreign = resolve_official(
        &EndpointConfig::absolute("https://other.example.com/v1/messages").unwrap(),
    )
    .unwrap();
    let binding = CredentialBinding::exact_https_origin(&first).unwrap();
    assert!(binding.validate(&second).is_ok());
    assert!(binding.validate(&foreign).is_err());

    let other_port = resolve_official(
        &EndpointConfig::absolute("https://llm.example.com:8443/v1/messages").unwrap(),
    )
    .unwrap();
    assert!(binding.validate(&other_port).is_err());
}

#[test]
fn production_binding_rejects_http_and_debug_is_value_free() {
    let endpoint =
        resolve_test_only(&EndpointConfig::absolute("http://127.0.0.1:8787/v1/messages").unwrap())
            .unwrap();
    assert!(CredentialBinding::exact_https_origin(&endpoint).is_err());

    let binding = CredentialBinding::official_openai();
    let debug = format!("{binding:?}");
    assert!(debug.contains("official-openai"));
    assert!(!debug.contains("/v1"));
}
