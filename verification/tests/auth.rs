use philo::domain::ProviderId;
use philo::error::{CredentialFailure, LlmError, ValidationReason};
use philo::provider::auth::cache::{cache_step, settle_refresh, CacheStep};
use philo::provider::auth::{
    ApiKey, ApiKeyHeaderAuth, AuthContext, AuthSchemeKind, BearerAuth, BearerCredential,
    CredentialIdentity, CredentialSourceKind, DynamicAuth, DynamicCredential, MultiHeaderAuth,
    NoAuth, TenantId,
};
use philo::provider::catalog::ProductId;
use philo::provider::endpoint::audience::{CredentialAudience, CredentialBinding};
use philo::provider::endpoint::config::{resolve_official, EndpointConfig};
use philo::provider::endpoint::origin::ResolvedEndpoint;
use philo::provider::headers::pipeline::HeaderOperation;

fn openai_endpoint() -> ResolvedEndpoint {
    resolve_official(&EndpointConfig::base_and_path("https://api.openai.com/v1", "/chat/completions").unwrap())
        .unwrap()
}

fn other_endpoint() -> ResolvedEndpoint {
    resolve_official(&EndpointConfig::absolute("https://evil.example.com/v1/chat/completions").unwrap())
        .unwrap()
}

fn value_of(op: &HeaderOperation) -> (String, Vec<u8>, bool) {
    match op {
        HeaderOperation::Assign { name, value } => {
            (name.clone(), value.value().to_vec(), value.is_sensitive())
        }
        HeaderOperation::Remove { name } => panic!("unexpected removal of {name}"),
    }
}

fn validation_of(err: LlmError) -> (String, ValidationReason, String) {
    match err {
        LlmError::Validation(v) => (v.field().to_owned(), v.reason(), v.summary().to_owned()),
        other => panic!("unexpected {other:?}"),
    }
}

#[test]
fn api_keys_are_non_empty_trimmed_header_text() {
    assert!(ApiKey::new("sk-test").is_ok());
    assert_eq!(validation_of(ApiKey::new("").err().unwrap()).1, ValidationReason::Empty);
    assert_eq!(
        validation_of(ApiKey::new(" sk").err().unwrap()).1,
        ValidationReason::BoundaryWhitespace
    );
    assert_eq!(
        validation_of(ApiKey::new("sk\u{1}x").err().unwrap()),
        (
            "api_key".to_owned(),
            ValidationReason::InvalidHeader,
            "API key is not valid in a Bearer header".to_owned()
        )
    );
}

#[test]
fn bearer_auth_sends_its_key_only_to_its_origin() {
    let auth = BearerAuth::new(BearerCredential::new(
        ApiKey::new("sk-test").unwrap(),
        CredentialBinding::official_openai(),
    ));
    let endpoint = openai_endpoint();
    let ops = auth.resolve_immediate(&AuthContext::new(&endpoint)).unwrap();
    assert_eq!(ops.len(), 1);
    assert_eq!(value_of(&ops[0]), ("authorization".to_owned(), b"Bearer sk-test".to_vec(), true));
    assert!(auth.validate_endpoint(&endpoint).is_ok());

    let foreign = other_endpoint();
    match auth.resolve_immediate(&AuthContext::new(&foreign)).err().unwrap() {
        LlmError::Configuration(m) => assert_eq!(m, "credential binding does not match endpoint origin"),
        other => panic!("unexpected {other:?}"),
    }
    assert!(auth.validate_endpoint(&foreign).is_err());
    assert_eq!(auth.protected_headers(), vec!["authorization".to_owned()]);
    assert_eq!(auth.scheme_kind(), AuthSchemeKind::Bearer);
    assert_eq!(auth.credential_source_kind(), CredentialSourceKind::Static);
}

#[test]
fn api_key_header_auth_refuses_names_owned_elsewhere() {
    let ok = ApiKeyHeaderAuth::new(
        "x-api-key",
        ApiKey::new("secret").unwrap(),
        CredentialBinding::official_openai(),
    )
    .unwrap();
    let endpoint = openai_endpoint();
    let ops = ok.resolve_immediate(&AuthContext::new(&endpoint)).unwrap();
    assert_eq!(value_of(&ops[0]), ("x-api-key".to_owned(), b"secret".to_vec(), true));
    for name in ["host", "content-type", "user-agent", "cookie"] {
        let err = ApiKeyHeaderAuth::new(name, ApiKey::new("s").unwrap(), CredentialBinding::official_openai())
            .err()
            .unwrap();
        assert_eq!(
            validation_of(err),
            (
                "auth.header_name".to_owned(),
                ValidationReason::ProtectedHeader,
                "header belongs to a non-authentication owner".to_owned()
            )
        );
    }
    let long = "x".repeat(129);
    assert!(ApiKeyHeaderAuth::new(&long, ApiKey::new("s").unwrap(), CredentialBinding::official_openai())
        .is_err());
}

#[test]
fn multi_header_auth_needs_one_to_eight_distinct_names() {
    let key = || ApiKey::new("k").unwrap();
    assert_eq!(
        validation_of(MultiHeaderAuth::new(vec![], CredentialBinding::official_openai()).err().unwrap()).2,
        "multi-header auth requires one to eight entries"
    );
    let nine: Vec<(String, ApiKey)> = (0..9).map(|i| (format!("x-k{i}"), key())).collect();
    assert!(MultiHeaderAuth::new(nine, CredentialBinding::official_openai()).is_err());
    let dup = vec![("x-a".to_owned(), key()), ("x-a".to_owned(), key())];
    assert_eq!(
        validation_of(MultiHeaderAuth::new(dup, CredentialBinding::official_openai()).err().unwrap()).2,
        "multi-header auth contains a duplicate name"
    );
    let group = MultiHeaderAuth::new(
        vec![("x-a".to_owned(), key()), ("x-b".to_owned(), key())],
        CredentialBinding::official_openai(),
    )
    .unwrap();
    assert_eq!(group.protected_headers(), vec!["x-a".to_owned(), "x-b".to_owned()]);
    let endpoint = openai_endpoint();
    assert_eq!(group.resolve_immediate(&AuthContext::new(&endpoint)).unwrap().len(), 2);
}

#[test]
fn no_auth_sends_nothing() {
    let endpoint = other_endpoint();
    assert!(NoAuth.resolve_immediate(&AuthContext::new(&endpoint)).unwrap().is_empty());
    assert!(NoAuth.protected_headers().is_empty());
    assert!(NoAuth.credential_binding().is_none());
    assert_eq!(NoAuth.scheme_kind(), AuthSchemeKind::Unauthenticated);
    assert_eq!(NoAuth.credential_source_kind(), CredentialSourceKind::NoCredential);
}

fn dynamic() -> DynamicAuth {
    DynamicAuth::new(
        CredentialAudience::OfficialOpenAi,
        TenantId::new("tenant-a").unwrap(),
        CredentialIdentity::new("svc").unwrap(),
    )
}

fn credential_failure(err: LlmError) -> CredentialFailure {
    match err {
        LlmError::Credential(c) => c.failure(),
        other => panic!("unexpected {other:?}"),
    }
}

#[test]
fn dynamic_auth_needs_a_real_attempt_at_its_audience() {
    let auth = dynamic();
    let endpoint = openai_endpoint();
    assert_eq!(
        credential_failure(auth.callback_context(&AuthContext::new(&endpoint)).err().unwrap()),
        CredentialFailure::Invalid
    );
    let provider = ProviderId::new("official-openai").unwrap();
    let product = ProductId::new("chat").unwrap();
    let context = auth
        .callback_context(&AuthContext::for_attempt(&endpoint, &provider, &product))
        .unwrap();
    assert_eq!(context.provider_id().as_str(), "official-openai");
    assert_eq!(context.product_id().as_str(), "chat");
    let key = context.cache_key();
    assert_eq!(key.tenant_id, "tenant-a");
    assert_eq!(key.audience_label, "official-openai");
    assert_eq!(key.audience_host, "api.openai.com");
    let foreign = other_endpoint();
    assert!(matches!(
        auth.callback_context(&AuthContext::for_attempt(&foreign, &provider, &product)),
        Err(LlmError::Configuration(_))
    ));
}

#[test]
fn dynamic_auth_accepts_only_allowed_unexpired_credentials() {
    let auth = dynamic();
    let bearer = DynamicCredential::bearer(ApiKey::new("k").unwrap(), 2_000, 1_000).unwrap();
    assert_eq!(auth.accept_acquired(bearer, 1_500).unwrap().expires_at(), 2_000);
    let expired = DynamicCredential::bearer(ApiKey::new("k").unwrap(), 2_000, 1_000).unwrap();
    assert_eq!(credential_failure(auth.accept_acquired(expired, 2_000).err().unwrap()), CredentialFailure::Invalid);
    let header = DynamicCredential::api_key_header("x-api-key", ApiKey::new("k").unwrap(), 2_000, 1_000).unwrap();
    assert_eq!(credential_failure(auth.accept_acquired(header, 1_500).err().unwrap()), CredentialFailure::Invalid);
    let widened = dynamic().allow_api_key_header("x-api-key").unwrap();
    let header = DynamicCredential::api_key_header("x-api-key", ApiKey::new("k").unwrap(), 2_000, 1_000).unwrap();
    assert!(widened.accept_acquired(header, 1_500).is_ok());
    assert_eq!(widened.protected_headers(), vec!["authorization".to_owned(), "x-api-key".to_owned()]);
}

#[test]
fn dynamic_auth_settings_are_bounded() {
    assert!(dynamic().with_callback_timeout(0).is_err());
    let auth = dynamic().with_callback_timeout(7).unwrap().with_refresh_window(11).with_still_valid_fallback(false);
    assert_eq!(auth.callback_timeout(), 7);
    assert_eq!(auth.refresh_window(), 11);
    assert!(!auth.allows_still_valid_fallback());
    assert_eq!(dynamic().callback_timeout(), 5_000_000_000);
    assert_eq!(dynamic().refresh_window(), 30_000_000_000);
}

#[test]
fn dynamic_credentials_must_expire_in_the_future() {
    assert_eq!(
        credential_failure(DynamicCredential::bearer(ApiKey::new("k").unwrap(), 1_000, 1_000).err().unwrap()),
        CredentialFailure::Invalid
    );
    let c = DynamicCredential::bearer(ApiKey::new("k").unwrap(), 1_000, 10).unwrap();
    assert!(c.is_fresh_at(500, 100));
    assert!(!c.is_fresh_at(950, 100));
    assert_eq!(value_of(&c.operation()), ("authorization".to_owned(), b"Bearer k".to_vec(), true));
}

#[test]
fn the_cache_uses_fresh_credentials_waits_for_refreshes_and_keeps_fallbacks() {
    let cred = |expires: u64| DynamicCredential::bearer(ApiKey::new("k").unwrap(), expires, 0).unwrap();
    assert!(matches!(cache_step(Some(&cred(1_000)), false, 100, 100), CacheStep::Use(_)));
    assert!(matches!(cache_step(Some(&cred(1_000)), true, 950, 100), CacheStep::Wait));
    match cache_step(Some(&cred(1_000)), false, 950, 100) {
        CacheStep::Fetch(Some(f)) => assert_eq!(f.expires_at(), 1_000),
        _ => panic!("expected a fetch with fallback"),
    }
    assert!(matches!(cache_step(Some(&cred(1_000)), false, 1_000, 100), CacheStep::Fetch(None)));
    assert!(matches!(cache_step(None, false, 0, 100), CacheStep::Fetch(None)));
    assert!(matches!(cache_step(None, true, 0, 100), CacheStep::Wait));

    let failed = || Err(philo::error::credential(CredentialFailure::Timeout));
    assert_eq!(settle_refresh(Ok(cred(9)), Some(cred(5)), true).unwrap().expires_at(), 9);
    assert_eq!(settle_refresh(failed(), Some(cred(5)), true).unwrap().expires_at(), 5);
    assert_eq!(credential_failure(settle_refresh(failed(), Some(cred(5)), false).err().unwrap()), CredentialFailure::Timeout);
    assert_eq!(credential_failure(settle_refresh(failed(), None, true).err().unwrap()), CredentialFailure::Timeout);
}
