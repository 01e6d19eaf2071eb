use philo::domain::{ModelId, ProtocolId};
use philo::error::LlmError;
use philo::provider::auth::{ApiKey, ApiKeyHeaderAuth, AuthContext, AuthSchemeKind, BearerAuth, BearerCredential};
use philo::provider::capability::{ProtocolDialect, ProviderCapabilities};
use philo::provider::definition::ProviderDefinition;
use philo::provider::endpoint::audience::CredentialBinding;
use philo::provider::headers::pipeline::{duplicate_operations, HeaderOperation, HeaderPipeline};
use philo::provider::headers::ClientIdentity;
use philo::provider::profiles::official::{
    official_anthropic_catalog, official_anthropic_definition, official_openai_definition,
    OFFICIAL_ANTHROPIC_API_VERSION,
};
use philo::provider::runtime::{check_profile_parts, resolve_attempt_headers};

fn reviewed_models() -> Vec<ModelId> {
    vec![ModelId::new("messages-large-5").unwrap(), ModelId::new("messages-small-5").unwrap()]
}

fn anthropic_auth() -> ApiKeyHeaderAuth {
    ApiKeyHeaderAuth::new(
        "x-api-key",
        ApiKey::new("anthropic-profile-test-key").unwrap(),
        CredentialBinding::official_anthropic(),
    )
    .unwrap()
}

fn resolve_endpoint(
    d: &ProviderDefinition,
    protocol: &ProtocolId,
    limit: usize,
    kind: AuthSchemeKind,
    binding: Option<&CredentialBinding>,
) -> Result<philo::provider::endpoint::origin::ResolvedEndpoint, LlmError> {
    check_profile_parts(
        d.provider_id(),
        d.product_id(),
        protocol,
        d.dialect(),
        d.protocol_contract(),
        &d.capabilities(),
        d.catalog(),
        &vec![],
        &vec![],
        d.endpoint(),
        false,
        limit,
        d.credential_binding(),
        kind,
        binding,
    )
}

#[test]
fn official_runtime_freezes_protocol_endpoint_and_catalog() {
    let d = official_anthropic_definition(&reviewed_models()).unwrap();
    let auth = anthropic_auth();
    let endpoint =
        resolve_endpoint(&d, d.protocol_id(), 16 * 1024, auth.scheme_kind(), auth.credential_binding()).unwrap();
    assert_eq!(d.provider_id().as_str(), "official-anthropic");
    assert_eq!(d.product_id().as_str(), "messages");
    assert_eq!(d.protocol_id().as_str(), "anthropic-messages");
    assert_eq!(d.dialect(), ProtocolDialect::AnthropicMessages);
    assert_eq!(endpoint.url(), "https://api.anthropic.com/v1/messages");
    assert_eq!(d.catalog().entries().len(), 2);
}

#[test]
fn official_headers_protect_auth_version_and_beta_owners() {
    let d = official_anthropic_definition(&reviewed_models()).unwrap();
    let auth = anthropic_auth();
    let endpoint =
        resolve_endpoint(&d, d.protocol_id(), 16 * 1024, auth.scheme_kind(), auth.credential_binding()).unwrap();
    let names: Vec<String> = d.provider_headers().iter().map(|op| op.name().to_owned()).collect();
    let pipeline = HeaderPipeline::with_registered_headers(auth.protected_headers(), names);
    let auth_ops = auth.resolve_immediate(&AuthContext::new(&endpoint)).unwrap();
    let attempt = |request: Vec<HeaderOperation>| {
        resolve_attempt_headers(
            &pipeline,
            vec![HeaderOperation::set("content-type", b"application/json").unwrap()],
            duplicate_operations(d.provider_headers()),
            vec![],
            ClientIdentity::new("app", "1").unwrap().operation().unwrap(),
            vec![],
            vec![],
            vec![],
            request,
            duplicate_operations(&auth_ops),
        )
    };
    let resolved = attempt(vec![]).unwrap();
    assert!(resolved.contains("x-api-key"));
    assert_eq!(resolved.get("anthropic-version").unwrap().as_slice(), OFFICIAL_ANTHROPIC_API_VERSION.as_bytes());
    assert!(!resolved.contains("anthropic-beta"));

    for name in ["x-api-key", "anthropic-version", "anthropic-beta"] {
        assert!(attempt(vec![HeaderOperation::set(name, b"forbidden").unwrap()]).is_err());
    }
}

#[test]
fn internal_construction_seam_rejects_invalid_parts() {
    let d = official_openai_definition().unwrap();
    let auth = BearerAuth::new(BearerCredential::new(
        ApiKey::new("profile-seam-test-key").unwrap(),
        CredentialBinding::official_openai(),
    ));
    assert!(resolve_endpoint(&d, d.protocol_id(), 0, auth.scheme_kind(), auth.credential_binding()).is_err());

    let mismatched = ProtocolId::new("wrong-protocol").unwrap();
    assert!(resolve_endpoint(&d, &mismatched, 16 * 1024, auth.scheme_kind(), auth.credential_binding()).is_err());
    assert!(resolve_endpoint(&d, d.protocol_id(), 16 * 1024, auth.scheme_kind(), auth.credential_binding()).is_ok());
}

#[test]
fn the_official_openai_definition_is_fixed() {
    let d = official_openai_definition().unwrap();
    assert_eq!(d.provider_id().as_str(), "official-openai");
    assert_eq!(d.product_id().as_str(), "chat-completions");
    assert_eq!(d.protocol_id().as_str(), "openai-chat-completions");
    assert_eq!(d.capabilities(), ProviderCapabilities::official_openai());
    assert!(d.credential_binding().same_as(&CredentialBinding::official_openai()));
    assert!(d.catalog().entries().is_empty());
}

#[test]
fn the_official_anthropic_catalog_lists_the_reviewed_models() {
    let catalog = official_anthropic_catalog(&reviewed_models()).unwrap();
    let models: Vec<&str> =
        catalog.entries().iter().map(|e| e.key.domain_model_id.as_str()).collect();
    assert_eq!(models.len(), 2);
    assert!(models.contains(&"messages-large-5"));
    assert!(models.contains(&"messages-small-5"));
    for entry in catalog.entries() {
        assert_eq!(entry.wire_model_value.as_str(), entry.key.domain_model_id.as_str());
        assert_eq!(entry.default_max_output_tokens, Some(4096));
        assert_eq!(entry.protocol_id.as_str(), "anthropic-messages");
    }
}

#[test]
fn a_repeated_reviewed_model_is_refused() {
    let models = vec![ModelId::new("messages-large-5").unwrap(), ModelId::new("messages-large-5").unwrap()];
    assert!(official_anthropic_catalog(&models).is_err());
    assert!(official_anthropic_definition(&models).is_err());
}
