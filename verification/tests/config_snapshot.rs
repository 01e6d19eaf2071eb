use philo::error::{LlmError, ProviderConfigFailure};
use philo::provider::config::{
    compile_endpoint, validate_snapshot, ClientIdentityConfig, ConfigSchemaVersion,
    CredentialAudienceSpec, EndpointSpec, ProviderConfigSnapshot, ResolvedField, SecretReference,
};

fn field<T>(value: T, source: &str) -> ResolvedField<T> {
    ResolvedField::new(Some(value), Some(source))
}

fn openai_snapshot() -> ProviderConfigSnapshot {
    ProviderConfigSnapshot {
        version: ConfigSchemaVersion::current(),
        provider_id: field("official-openai".to_owned(), "built-in"),
        protocol_id: field("openai-chat-completions".to_owned(), "built-in"),
        endpoint: field(
            EndpointSpec::BaseAndPath {
                base_url: "https://api.openai.com/v1".to_owned(),
                endpoint_path: "/chat/completions".to_owned(),
            },
            "built-in",
        ),
        credential_audience: field(CredentialAudienceSpec::OfficialOpenAi, "built-in"),
        client_identity: field(
            ClientIdentityConfig { product: "my-app".to_owned(), version: "1.0".to_owned() },
            "user",
        ),
        max_http_error_body_bytes: field(16 * 1024, "built-in"),
        credential: field(SecretReference::environment_variable("OPENAI_API_KEY").unwrap(), "env"),
    }
}

#[test]
fn a_complete_official_snapshot_validates_and_yields_its_inputs() {
    let snapshot = openai_snapshot();
    assert!(validate_snapshot(&snapshot).is_ok());
    let inputs = snapshot.official_openai_inputs().unwrap();
    assert_eq!(inputs.credential.name(), "OPENAI_API_KEY");
    assert_eq!(inputs.client_identity.product(), "my-app");
    assert_eq!(inputs.client_identity.version(), "1.0");
    assert_eq!(inputs.max_http_error_body_bytes, 16 * 1024);
}

#[test]
fn a_missing_required_field_names_the_field_and_its_source() {
    let mut snapshot = openai_snapshot();
    snapshot.protocol_id = ResolvedField::new(None, Some("user"));
    let err = validate_snapshot(&snapshot).err().unwrap();
    assert_eq!(err.field(), "protocol_id");
    assert_eq!(err.reason(), ProviderConfigFailure::MissingRequiredField);
    assert_eq!(err.summary(), "required provider configuration field is absent");
    assert_eq!(err.source(), Some("user"));
}

#[test]
fn an_unsupported_schema_version_is_refused_first() {
    let mut snapshot = openai_snapshot();
    snapshot.version = ConfigSchemaVersion(2);
    snapshot.provider_id = ResolvedField::new(None, None);
    let err = validate_snapshot(&snapshot).err().unwrap();
    assert_eq!(err.field(), "version");
    assert_eq!(err.reason(), ProviderConfigFailure::InvalidValue);
    assert_eq!(err.source(), None);
}

#[test]
fn the_error_body_limit_must_be_between_one_byte_and_one_mebibyte() {
    for (limit, ok) in [(0usize, false), (1, true), (1024 * 1024, true), (1024 * 1024 + 1, false)] {
        let mut snapshot = openai_snapshot();
        snapshot.max_http_error_body_bytes = field(limit, "user");
        let result = validate_snapshot(&snapshot);
        assert_eq!(result.is_ok(), ok, "limit {limit}");
        if let Err(err) = result {
            assert_eq!(err.field(), "max_http_error_body_bytes");
            assert_eq!(err.source(), Some("user"));
        }
    }
}

#[test]
fn invalid_identifiers_endpoints_and_identities_are_reported_by_field() {
    let mut snapshot = openai_snapshot();
    snapshot.provider_id = field(" padded".to_owned(), "user");
    assert_eq!(validate_snapshot(&snapshot).err().unwrap().summary(), "provider identifier is invalid");

    let mut snapshot = openai_snapshot();
    snapshot.endpoint = field(EndpointSpec::Absolute { url: "not a url".to_owned() }, "user");
    let err = validate_snapshot(&snapshot).err().unwrap();
    assert_eq!(err.field(), "endpoint");
    assert_eq!(err.summary(), "endpoint configuration is invalid");

    let mut snapshot = openai_snapshot();
    snapshot.client_identity = field(
        ClientIdentityConfig { product: "bad product".to_owned(), version: "1".to_owned() },
        "user",
    );
    let err = validate_snapshot(&snapshot).err().unwrap();
    assert_eq!(err.field(), "client_identity");
    assert_eq!(err.summary(), "client identity configuration is invalid");
}

#[test]
fn official_identity_audience_and_endpoint_cannot_be_overridden() {
    let mut snapshot = openai_snapshot();
    snapshot.provider_id = field("my-openai".to_owned(), "user");
    match snapshot.official_openai_inputs().err().unwrap() {
        LlmError::ProviderConfig(e) => {
            assert_eq!(e.field(), "provider_id");
            assert_eq!(e.reason(), ProviderConfigFailure::ForbiddenOverride);
            assert_eq!(e.source(), Some("user"));
        }
        other => panic!("unexpected {other:?}"),
    }

    let mut snapshot = openai_snapshot();
    snapshot.credential_audience = field(CredentialAudienceSpec::EndpointOrigin, "user");
    match snapshot.official_openai_inputs().err().unwrap() {
        LlmError::ProviderConfig(e) => {
            assert_eq!(e.field(), "credential_audience");
            assert_eq!(e.summary(), "official profile requires the official credential audience");
        }
        other => panic!("unexpected {other:?}"),
    }

    let mut snapshot = openai_snapshot();
    snapshot.endpoint = field(
        EndpointSpec::BaseAndPath {
            base_url: "https://proxy.example.com/v1".to_owned(),
            endpoint_path: "/chat/completions".to_owned(),
        },
        "user",
    );
    match snapshot.official_openai_inputs().err().unwrap() {
        LlmError::ProviderConfig(e) => {
            assert_eq!(e.field(), "endpoint");
            assert_eq!(e.summary(), "official profile endpoint cannot be overridden");
        }
        other => panic!("unexpected {other:?}"),
    }

    let snapshot = openai_snapshot();
    match snapshot.official_anthropic_inputs().err().unwrap() {
        LlmError::ProviderConfig(e) => assert_eq!(e.field(), "provider_id"),
        other => panic!("unexpected {other:?}"),
    }
}

#[test]
fn an_official_profile_needs_a_credential_reference() {
    let mut snapshot = openai_snapshot();
    snapshot.credential = ResolvedField::new(None, None);
    assert!(validate_snapshot(&snapshot).is_ok());
    match snapshot.official_openai_inputs().err().unwrap() {
        LlmError::ProviderConfig(e) => {
            assert_eq!(e.field(), "credential");
            assert_eq!(e.reason(), ProviderConfigFailure::MissingRequiredField);
        }
        other => panic!("unexpected {other:?}"),
    }
}

#[test]
fn endpoint_lengths_are_bounded_before_parsing() {
    let long = format!("https://example.com/{}", "a".repeat(2048));
    match compile_endpoint(&EndpointSpec::BaseAndPath { base_url: long, endpoint_path: "/x".to_owned() })
        .err()
        .unwrap()
    {
        LlmError::Configuration(m) => assert_eq!(m, "endpoint configuration exceeds bounded lengths"),
        other => panic!("unexpected {other:?}"),
    }
    assert!(compile_endpoint(&EndpointSpec::Absolute { url: "https://example.com/v1/chat".to_owned() }).is_ok());
    match compile_endpoint(&EndpointSpec::Absolute { url: "::".to_owned() }).err().unwrap() {
        LlmError::Configuration(m) => assert_eq!(m, "invalid absolute endpoint"),
        other => panic!("unexpected {other:?}"),
    }
}
