use philo::domain::{ModelId, ProviderId};
use philo::error::{LlmError, ValidationReason};
use philo::provider::auth::{ApiKey, AuthSchemeKind, BearerAuth, BearerCredential};
use philo::provider::capability::{ModelCapabilityProfile, ProtocolDialect, ProviderCapabilities};
use philo::provider::catalog::{ModelCatalog, ProductId};
use philo::provider::definition::{AuthScheme, ProviderDefinition, ReferenceAuth};
use philo::provider::profiles::official::official_anthropic_definition;
use philo::provider::endpoint::audience::CredentialBinding;
use philo::provider::endpoint::config::EndpointConfig;
use philo::provider::headers::pipeline::{HeaderOperation, HeaderPipeline};
use philo::provider::headers::{ClientIdentity, HeaderSource};
use philo::provider::protocol_contract::ResolvedProtocolContract;
use philo::provider::runtime::{check_profile_parts, resolve_attempt_headers};

fn message(err: LlmError) -> String {
    match err {
        LlmError::Configuration(m) => m,
        other => panic!("unexpected {other:?}"),
    }
}

fn official() -> ProviderDefinition {
    ProviderDefinition::openai_chat(
        ProviderId::new("official-openai").unwrap(),
        ProductId::new("chat-completions").unwrap(),
    )
    .with_endpoint(EndpointConfig::base_and_path("https://api.openai.com/v1", "/chat/completions").unwrap())
    .with_credential_binding(CredentialBinding::official_openai())
    .with_auth_scheme(AuthScheme::bearer())
    .with_capabilities(ProviderCapabilities::official_openai())
    .with_catalog(ModelCatalog::default())
    .build()
    .unwrap()
}

struct Parts {
    limit: usize,
    capabilities: ProviderCapabilities,
    declarations: Vec<(ModelId, ModelCapabilityProfile)>,
    contracts: Vec<(ModelId, ResolvedProtocolContract)>,
    endpoint: EndpointConfig,
    test_only: bool,
    auth_kind: AuthSchemeKind,
    auth_binding: Option<CredentialBinding>,
    dialect: ProtocolDialect,
}

fn parts(d: &ProviderDefinition) -> Parts {
    Parts {
        limit: 16 * 1024,
        capabilities: d.capabilities(),
        declarations: vec![],
        contracts: vec![],
        endpoint: EndpointConfig::base_and_path("https://api.openai.com/v1", "/chat/completions").unwrap(),
        test_only: false,
        auth_kind: AuthSchemeKind::Bearer,
        auth_binding: Some(CredentialBinding::official_openai()),
        dialect: d.dialect(),
    }
}

fn check(d: &ProviderDefinition, p: &Parts) -> Result<String, LlmError> {
    check_profile_parts(
        d.provider_id(),
        d.product_id(),
        d.protocol_id(),
        p.dialect,
        d.protocol_contract(),
        &p.capabilities,
        d.catalog(),
        &p.declarations,
        &p.contracts,
        &p.endpoint,
        p.test_only,
        p.limit,
        d.credential_binding(),
        p.auth_kind,
        p.auth_binding.as_ref(),
    )
    .map(|endpoint| endpoint.url().to_owned())
}

#[test]
fn an_official_profile_resolves_its_bound_endpoint() {
    let d = official();
    assert_eq!(check(&d, &parts(&d)).unwrap(), "https://api.openai.com/v1/chat/completions");
}

#[test]
fn profile_parts_are_checked_in_order() {
    let d = official();
    let mut p = parts(&d);
    p.limit = 0;
    assert_eq!(message(check(&d, &p).err().unwrap()), "HTTP error body limit must be positive");

    let mut p = parts(&d);
    p.capabilities.streaming = philo::domain::CapabilityStatus::Unknown;
    assert_eq!(message(check(&d, &p).err().unwrap()), "profile must declare streaming support");

    let mut p = parts(&d);
    p.declarations = vec![(
        ModelId::new("gpt-a").unwrap(),
        ModelCapabilityProfile::new(ModelId::new("gpt-b").unwrap()),
    )];
    assert_eq!(message(check(&d, &p).err().unwrap()), "model capability map key does not match its declaration");

    let mut p = parts(&d);
    p.dialect = ProtocolDialect::AnthropicMessages;
    assert_eq!(
        message(check(&d, &p).err().unwrap()),
        "protocol id, dialect, and contract do not form a supported binding"
    );

    let mut p = parts(&d);
    p.contracts = vec![(ModelId::new("gpt-a").unwrap(), ResolvedProtocolContract::strict_anthropic_messages())];
    assert_eq!(
        message(check(&d, &p).err().unwrap()),
        "model protocol contract does not match the provider protocol binding"
    );
}

#[test]
fn credentials_stay_bound_to_their_exact_origin() {
    let d = official();
    let mut p = parts(&d);
    p.endpoint = EndpointConfig::base_and_path("https://proxy.example.com/v1", "/chat/completions").unwrap();
    assert_eq!(message(check(&d, &p).err().unwrap()), "credential binding does not match endpoint origin");

    let mut p = parts(&d);
    p.endpoint = EndpointConfig::base_and_path("http://api.openai.com/v1", "/chat/completions").unwrap();
    assert!(check(&d, &p).is_err());

    let mut p = parts(&d);
    p.auth_binding = Some(CredentialBinding::official_anthropic());
    assert_eq!(message(check(&d, &p).err().unwrap()), "credential binding does not match endpoint origin");

    let mut p = parts(&d);
    p.auth_binding = None;
    assert_eq!(
        message(check(&d, &p).err().unwrap()),
        "credential-bearing authentication must expose its destination binding"
    );
    p.auth_kind = AuthSchemeKind::Unauthenticated;
    assert!(check(&d, &p).is_ok());
}

#[test]
fn deployments_must_belong_to_the_definition() {
    let d = official();
    let auth = BearerAuth::new(BearerCredential::new(ApiKey::new("k").unwrap(), CredentialBinding::official_openai()));
    let headers = auth.protected_headers();
    let own = ProviderId::new("official-openai").unwrap();
    assert!(d.check_deployment(&own, auth.scheme_kind(), &headers, auth.credential_binding(), 1).is_ok());
    let other = ProviderId::new("someone-else").unwrap();
    assert_eq!(
        message(d.check_deployment(&other, auth.scheme_kind(), &headers, auth.credential_binding(), 1).err().unwrap()),
        "deployment provider identity does not match provider definition"
    );
    assert_eq!(
        message(d.check_deployment(&own, AuthSchemeKind::ApiKeyHeader, &headers, auth.credential_binding(), 1).err().unwrap()),
        "deployment authentication scheme does not match provider definition"
    );
    assert_eq!(
        message(d.check_deployment(&own, auth.scheme_kind(), &headers, auth.credential_binding(), 0).err().unwrap()),
        "HTTP error body limit must be positive"
    );
}

fn set(name: &str, value: &str) -> HeaderOperation {
    HeaderOperation::set(name, value.as_bytes()).unwrap()
}

#[test]
fn attempt_headers_follow_the_fixed_layer_order() {
    let pipeline = HeaderPipeline::new();
    let resolved = resolve_attempt_headers(
        &pipeline,
        vec![set("content-type", "application/json")],
        vec![set("x-a", "provider")],
        vec![set("x-b", "identity")],
        ClientIdentity::new("app", "1").unwrap().operation().unwrap(),
        vec![set("x-a", "model")],
        vec![],
        vec![],
        vec![set("x-b", "request")],
        vec![HeaderOperation::set_sensitive("authorization", b"Bearer k").unwrap()],
    )
    .unwrap();
    assert_eq!(resolved.get("x-a").unwrap().as_slice(), b"model");
    assert_eq!(resolved.final_source("x-b"), Some(HeaderSource::Request));
    assert_eq!(resolved.final_source("authorization"), Some(HeaderSource::Auth));
    assert_eq!(resolved.get("user-agent").unwrap().as_slice(), b"app/1");

    let err = resolve_attempt_headers(
        &pipeline,
        vec![set("content-type", "text/plain")],
        vec![],
        vec![],
        ClientIdentity::new("app", "1").unwrap().operation().unwrap(),
        vec![],
        vec![],
        vec![],
        vec![],
        vec![],
    )
    .err()
    .unwrap();
    match err {
        LlmError::Validation(v) => {
            assert_eq!(v.field(), "request_headers.content-type");
            assert_eq!(v.reason(), ValidationReason::ProtectedHeader);
            assert_eq!(v.summary(), "generation protocol must set application/json");
        }
        other => panic!("unexpected {other:?}"),
    }
}

#[test]
fn a_resolved_key_becomes_the_declared_authentication() {
    let d = official();
    match d.reference_auth(ApiKey::new("k").unwrap()).unwrap() {
        ReferenceAuth::Bearer(auth) => assert!(auth.binding().same_as(&CredentialBinding::official_openai())),
        ReferenceAuth::ApiKeyHeader(_) => panic!("expected bearer authentication"),
    }
    assert_eq!(
        message(d.check_without_auth().err().unwrap()),
        "credential-bearing definition requires deployment authentication"
    );

    let anthropic = official_anthropic_definition(&vec![ModelId::new("messages-large-5").unwrap()]).unwrap();
    match anthropic.reference_auth(ApiKey::new("k").unwrap()).unwrap() {
        ReferenceAuth::ApiKeyHeader(auth) => assert_eq!(auth.protected_headers(), vec!["x-api-key".to_string()]),
        ReferenceAuth::Bearer(_) => panic!("expected API-key authentication"),
    }

    let open = ProviderDefinition::openai_chat(
        ProviderId::new("local-open").unwrap(),
        ProductId::new("chat-completions").unwrap(),
    )
    .with_endpoint(EndpointConfig::base_and_path("https://api.openai.com/v1", "/chat/completions").unwrap())
    .with_credential_binding(CredentialBinding::official_openai())
    .with_auth_scheme(AuthScheme::none())
    .with_capabilities(ProviderCapabilities::official_openai())
    .with_catalog(ModelCatalog::default())
    .build()
    .unwrap();
    assert!(open.check_without_auth().is_ok());
    assert_eq!(
        message(open.reference_auth(ApiKey::new("k").unwrap()).err().unwrap()),
        "credential reference cannot be used with unauthenticated definition"
    );
}
