use philo::domain::ProviderId;
use philo::provider::auth::{ApiKey, ApiKeyHeaderAuth, BearerAuth, BearerCredential};
use philo::provider::capability::{ProtocolDialect, ProviderCapabilities};
use philo::provider::catalog::ProductId;
use philo::provider::definition::{AuthScheme, ProviderDefinition, ProviderDefinitionBuilder};
use philo::provider::endpoint::audience::CredentialBinding;
use philo::provider::endpoint::config::{resolve_official, EndpointConfig};
use philo::provider::auth::AuthSchemeKind;
use philo::provider::headers::pipeline::HeaderOperation;
use philo::provider::runtime::check_profile_parts;

fn compiles(
    definition: &ProviderDefinition,
    kind: AuthSchemeKind,
    headers: &Vec<String>,
    binding: Option<&CredentialBinding>,
) -> bool {
    definition
        .check_deployment(definition.provider_id(), kind, headers, binding, 16 * 1024)
        .is_ok()
        && check_profile_parts(
            definition.provider_id(),
            definition.product_id(),
            definition.protocol_id(),
            definition.dialect(),
            definition.protocol_contract(),
            &definition.capabilities(),
            definition.catalog(),
            &vec![],
            &vec![],
            definition.endpoint(),
            false,
            16 * 1024,
            definition.credential_binding(),
            kind,
            binding,
        )
        .is_ok()
}

fn openai_builder() -> ProviderDefinitionBuilder {
    ProviderDefinition::openai_chat(
        ProviderId::new("custom-openai").unwrap(),
        ProductId::new("chat").unwrap(),
    )
}

fn endpoint() -> EndpointConfig {
    EndpointConfig::absolute("https://llm.example.com/v1/chat/completions").unwrap()
}

#[test]
fn required_definition_fields_fail_closed() {
    assert!(openai_builder().build().is_err());
    assert!(openai_builder()
        .with_endpoint(endpoint())
        .with_auth_scheme(AuthScheme::bearer())
        .allow_unregistered_models()
        .build()
        .is_err());
}

#[test]
fn both_protocols_compile_through_the_generic_builder() {
    let openai = openai_builder()
        .with_endpoint(endpoint())
        .bind_credential_to_endpoint_origin()
        .with_auth_scheme(AuthScheme::bearer())
        .with_capabilities(ProviderCapabilities::official_openai())
        .allow_unregistered_models()
        .build()
        .unwrap();
    let openai_auth = BearerAuth::new(BearerCredential::new(
        ApiKey::new("builder-openai-key").unwrap(),
        openai.credential_binding().clone(),
    ));
    assert!(compiles(
        &openai,
        openai_auth.scheme_kind(),
        &openai_auth.protected_headers(),
        openai_auth.credential_binding(),
    ));
    assert_eq!(openai.dialect(), ProtocolDialect::OpenAiChatCompletions);

    let anthropic_endpoint =
        EndpointConfig::absolute("https://messages.example.com/v1/messages").unwrap();
    let anthropic = ProviderDefinition::anthropic_messages(
        ProviderId::new("custom-anthropic").unwrap(),
        ProductId::new("messages").unwrap(),
    )
    .with_endpoint(anthropic_endpoint)
    .bind_credential_to_endpoint_origin()
    .with_auth_scheme(AuthScheme::api_key_header("x-api-key").unwrap())
    .with_provider_headers(vec![HeaderOperation::set("anthropic-version", b"2023-06-01").unwrap()])
    .with_capabilities(ProviderCapabilities::official_anthropic())
    .allow_unregistered_models()
    .build()
    .unwrap();
    let anthropic_auth = ApiKeyHeaderAuth::new(
        "x-api-key",
        ApiKey::new("builder-anthropic-key").unwrap(),
        anthropic.credential_binding().clone(),
    )
    .unwrap();
    assert!(compiles(
        &anthropic,
        anthropic_auth.scheme_kind(),
        &anthropic_auth.protected_headers(),
        anthropic_auth.credential_binding(),
    ));
    assert_eq!(anthropic.dialect(), ProtocolDialect::AnthropicMessages);
}

#[test]
fn header_owner_conflicts_and_binding_drift_are_rejected() {
    let conflict = openai_builder()
        .with_endpoint(endpoint())
        .bind_credential_to_endpoint_origin()
        .with_auth_scheme(AuthScheme::bearer())
        .with_provider_headers(vec![HeaderOperation::set("authorization", b"forbidden").unwrap()])
        .with_capabilities(ProviderCapabilities::official_openai())
        .allow_unregistered_models()
        .build();
    assert!(conflict.is_err());

    let definition = openai_builder()
        .with_endpoint(endpoint())
        .bind_credential_to_endpoint_origin()
        .with_auth_scheme(AuthScheme::bearer())
        .with_capabilities(ProviderCapabilities::official_openai())
        .allow_unregistered_models()
        .build()
        .unwrap();
    let foreign =
        resolve_official(&EndpointConfig::absolute("https://other.example.com/v1/chat").unwrap())
            .unwrap();
    let auth = BearerAuth::new(BearerCredential::new(
        ApiKey::new("foreign-binding-key").unwrap(),
        CredentialBinding::exact_https_origin(&foreign).unwrap(),
    ));
    assert!(!compiles(&definition, auth.scheme_kind(), &auth.protected_headers(), auth.credential_binding()));
}
