use philo::domain::{ProtocolId, ProviderId};
use philo::error::{LlmError, ProviderRegistryFailure};
use philo::provider::capability::ProviderCapabilities;
use philo::provider::catalog::{ModelCatalog, ProductId};
use philo::provider::definition::{AuthScheme, ProviderDefinition};
use philo::provider::endpoint::audience::CredentialBinding;
use philo::provider::endpoint::config::EndpointConfig;
use philo::provider::registry::{
    check_runtime_identity, normalize_provider_id, validate_version, ProviderRegistration,
    ProviderRegistry,
};

fn definition(provider: &str, product: &str) -> ProviderDefinition {
    ProviderDefinition::openai_chat(
        ProviderId::new(provider).unwrap(),
        ProductId::new(product).unwrap(),
    )
    .with_endpoint(
        EndpointConfig::base_and_path("https://api.openai.com/v1", "/chat/completions").unwrap(),
    )
    .with_credential_binding(CredentialBinding::official_openai())
    .with_auth_scheme(AuthScheme::bearer())
    .with_capabilities(ProviderCapabilities::official_openai())
    .with_catalog(ModelCatalog::default())
    .build()
    .unwrap()
}

fn registration(provider: &str, product: &str) -> ProviderRegistration {
    ProviderRegistration::from_definition(definition(provider, product)).unwrap()
}

fn id(value: &str) -> ProviderId {
    ProviderId::new(value).unwrap()
}

fn product(value: &str) -> ProductId {
    ProductId::new(value).unwrap()
}

#[test]
fn registration_normalizes_the_provider_and_records_the_schema_version() {
    let reg = registration("Official-OpenAI", "chat-completions");
    let metadata = reg.metadata();
    assert_eq!(metadata.provider_id().as_str(), "official-openai");
    assert_eq!(metadata.product_id().unwrap().as_str(), "chat-completions");
    assert_eq!(metadata.protocol_id().unwrap().as_str(), "openai-chat-completions");
    assert_eq!(metadata.version(), philo::PROVIDER_CONFIG_SCHEMA_VERSION);
    assert_eq!(reg.definition().provider_id().as_str(), "Official-OpenAI");
}

#[test]
fn registration_refuses_a_provider_id_outside_the_normalized_alphabet() {
    let err = ProviderRegistration::from_definition(definition("open ai", "chat"))
        .err()
        .unwrap();
    assert_eq!(err.failure(), ProviderRegistryFailure::InvalidProviderId);
    assert_eq!(err.provider_id(), None);
}

#[test]
fn register_then_lookup_finds_the_registration() {
    let mut registry = ProviderRegistry::new();
    let metadata = registry.register(registration("acme", "chat")).unwrap();
    assert_eq!(metadata.provider_id().as_str(), "acme");
    let found = registry.get_product(&id("acme"), &product("chat")).unwrap();
    assert_eq!(found.product_id().unwrap().as_str(), "chat");
    assert_eq!(registry.get(&id("acme")).unwrap().provider_id().as_str(), "acme");
    assert!(registry.get_product(&id("acme"), &product("other")).is_none());
    assert!(registry.get(&id("other")).is_none());
}

#[test]
fn duplicate_registration_is_refused_and_leaves_the_registry_unchanged() {
    let mut registry = ProviderRegistry::new();
    registry.register(registration("acme", "chat")).unwrap();
    let err = registry.register(registration("ACME", "chat")).err().unwrap();
    assert_eq!(err.failure(), ProviderRegistryFailure::DuplicateRegistration);
    assert_eq!(err.provider_id(), Some("acme"));
    assert_eq!(err.summary(), "provider ID is already registered; use explicit replace");
    assert_eq!(registry.list().len(), 1);
}

#[test]
fn replace_requires_an_existing_registration_and_returns_the_old_metadata() {
    let mut registry = ProviderRegistry::new();
    let err = registry.replace(registration("acme", "chat")).err().unwrap();
    assert_eq!(err.failure(), ProviderRegistryFailure::RegistrationNotFound);
    assert!(registry.list().is_empty());
    registry.register(registration("acme", "chat")).unwrap();
    let previous = registry.replace(registration("acme", "chat")).unwrap();
    assert_eq!(previous.provider_id().as_str(), "acme");
    assert_eq!(registry.list().len(), 1);
}

#[test]
fn list_is_in_provider_then_product_order() {
    let mut registry = ProviderRegistry::new();
    registry.register(registration("zeta", "chat")).unwrap();
    registry.register(registration("acme", "responses")).unwrap();
    registry.register(registration("acme", "chat")).unwrap();
    let listed: Vec<(String, String)> = registry
        .list()
        .iter()
        .map(|m| {
            (m.provider_id().as_str().to_owned(), m.product_id().unwrap().as_str().to_owned())
        })
        .collect();
    assert_eq!(
        listed,
        vec![
            ("acme".to_owned(), "chat".to_owned()),
            ("acme".to_owned(), "responses".to_owned()),
            ("zeta".to_owned(), "chat".to_owned()),
        ]
    );
}

#[test]
fn lookup_by_provider_alone_needs_a_single_product() {
    let mut registry = ProviderRegistry::new();
    registry.register(registration("acme", "chat")).unwrap();
    registry.register(registration("acme", "responses")).unwrap();
    assert!(registry.get(&id("acme")).is_none());
    assert!(registry.remove(&id("acme")).is_none());
    assert_eq!(registry.list().len(), 2);
    let removed = registry.remove_product(&id("acme"), &product("chat")).unwrap();
    assert_eq!(removed.product_id().unwrap().as_str(), "chat");
    assert!(registry.get_product(&id("acme"), &product("chat")).is_none());
    assert_eq!(
        registry.get(&id("acme")).unwrap().product_id().unwrap().as_str(),
        "responses"
    );
    assert!(registry.remove(&id("acme")).is_some());
    assert!(registry.list().is_empty());
}

#[test]
fn get_by_name_normalizes_and_rejects_invalid_names() {
    let mut registry = ProviderRegistry::new();
    registry.register(registration("acme", "chat")).unwrap();
    assert!(registry.get_by_name("  ACME ").unwrap().is_some());
    let err = registry.get_by_name("a c").err().unwrap();
    assert_eq!(err.failure(), ProviderRegistryFailure::InvalidProviderId);
    assert!(registry.get_by_name("").is_err());
}

#[test]
fn deployment_selection_checks_identity_and_product_count() {
    let mut registry = ProviderRegistry::new();
    let err = registry.deployment_definition(&id("acme"), &id("other")).err().unwrap();
    match err {
        LlmError::Registry(e) => {
            assert_eq!(e.failure(), ProviderRegistryFailure::FactoryProviderMismatch)
        }
        other => panic!("unexpected {other:?}"),
    }
    match registry.deployment_definition(&id("acme"), &id("acme")).err().unwrap() {
        LlmError::Registry(e) => {
            assert_eq!(e.failure(), ProviderRegistryFailure::RegistrationNotFound);
            assert_eq!(e.summary(), "provider ID is not registered");
        }
        other => panic!("unexpected {other:?}"),
    }
    registry.register(registration("acme", "chat")).unwrap();
    let chosen = registry.deployment_definition(&id("acme"), &id("acme")).unwrap();
    assert_eq!(chosen.product_id().as_str(), "chat");
    registry.register(registration("acme", "responses")).unwrap();
    match registry.deployment_definition(&id("acme"), &id("acme")).err().unwrap() {
        LlmError::Configuration(message) => assert_eq!(
            message,
            "provider has multiple products; select one with build_product_deployment"
        ),
        other => panic!("unexpected {other:?}"),
    }
    let chosen = registry
        .product_deployment_definition(&id("acme"), &product("responses"), &id("acme"))
        .unwrap();
    assert_eq!(chosen.product_id().as_str(), "responses");
    match registry
        .product_deployment_definition(&id("acme"), &product("missing"), &id("acme"))
        .err()
        .unwrap()
    {
        LlmError::Registry(e) => assert_eq!(e.summary(), "provider product is not registered"),
        other => panic!("unexpected {other:?}"),
    }
}

#[test]
fn runtime_identity_must_match_the_definition() {
    let protocol = ProtocolId::new("openai-chat-completions").unwrap();
    assert!(check_runtime_identity(
        &id("acme"),
        &id("acme"),
        &product("chat"),
        Some(&protocol),
        &id("acme"),
        &product("chat"),
        &protocol,
    )
    .is_ok());
    let err = check_runtime_identity(
        &id("acme"),
        &id("acme"),
        &product("chat"),
        None,
        &id("acme"),
        &product("other"),
        &protocol,
    )
    .err()
    .unwrap();
    match err {
        LlmError::Registry(e) => {
            assert_eq!(e.failure(), ProviderRegistryFailure::FactoryProviderMismatch);
            assert_eq!(e.summary(), "definition compiler returned mismatched runtime identity");
        }
        other => panic!("unexpected {other:?}"),
    }
}

#[test]
fn provider_ids_and_versions_are_normalized_or_refused() {
    assert_eq!(normalize_provider_id(" My.Provider/v1 ").unwrap().as_str(), "my.provider/v1");
    assert!(normalize_provider_id("-leading").is_err());
    assert!(normalize_provider_id("trailing_").is_err());
    assert!(normalize_provider_id(&"a".repeat(129)).is_err());
    assert!(normalize_provider_id(&"a".repeat(128)).is_ok());
    let provider = id("acme");
    assert_eq!(validate_version("1.2.3+build", &provider).unwrap(), "1.2.3+build");
    let err = validate_version(" 1", &provider).err().unwrap();
    assert_eq!(err.failure(), ProviderRegistryFailure::InvalidVersion);
    assert_eq!(err.provider_id(), Some("acme"));
    assert!(validate_version("", &provider).is_err());
    assert!(validate_version(&"1".repeat(65), &provider).is_err());
}
