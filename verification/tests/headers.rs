use philo::error::{LlmError, ValidationReason};
use philo::provider::headers::pipeline::{
    protected_header, HeaderLayer, HeaderOperation, HeaderPipeline, HeaderPolicy,
    SensitiveHeaderValue,
};
use philo::provider::headers::{ClientIdentity, HeaderSource};

fn set(name: &str, value: &str) -> HeaderOperation {
    HeaderOperation::set(name, value.as_bytes()).unwrap()
}

fn secret(name: &str, value: &str) -> HeaderOperation {
    HeaderOperation::set_sensitive(name, value.as_bytes()).unwrap()
}

fn protocol_layer() -> HeaderLayer {
    HeaderLayer::new(HeaderSource::Protocol, vec![set("content-type", "application/json")])
}

fn refusal(err: LlmError) -> (String, String) {
    match err {
        LlmError::Validation(v) => {
            assert_eq!(v.reason(), ValidationReason::ProtectedHeader);
            (v.field().to_owned(), v.summary().to_owned())
        }
        other => panic!("unexpected {other:?}"),
    }
}

#[test]
fn header_values_refuse_control_bytes() {
    assert!(SensitiveHeaderValue::from_bytes(b"ok value\t", false).is_ok());
    for bad in [&b"line\nbreak"[..], b"nul\0", b"del\x7f"] {
        match HeaderOperation::set("x-test", bad).err().unwrap() {
            LlmError::Validation(v) => {
                assert_eq!(v.field(), "request_headers");
                assert_eq!(v.reason(), ValidationReason::InvalidHeader);
                assert_eq!(v.summary(), "invalid header value");
            }
            other => panic!("unexpected {other:?}"),
        }
    }
    let value = SensitiveHeaderValue::from_bytes(b"abc", true).unwrap();
    assert!(value.is_sensitive());
    assert_eq!(value.value(), b"abc");
}

#[test]
fn later_layers_override_earlier_ones_and_auth_comes_last() {
    let pipeline = HeaderPipeline::new();
    let resolved = pipeline
        .resolve(vec![
            HeaderLayer::new(HeaderSource::Request, vec![set("x-trace", "request")]),
            HeaderLayer::new(HeaderSource::Auth, vec![secret("authorization", "Bearer k")]),
            HeaderLayer::new(HeaderSource::Provider, vec![set("x-trace", "provider")]),
            protocol_layer(),
        ])
        .unwrap();
    assert_eq!(resolved.get("x-trace").unwrap().as_slice(), b"request");
    assert_eq!(resolved.final_source("x-trace"), Some(HeaderSource::Request));
    assert_eq!(resolved.final_source("authorization"), Some(HeaderSource::Auth));
    assert_eq!(resolved.get("content-type").unwrap().as_slice(), b"application/json");
    assert!(!resolved.contains("x-missing"));
}

#[test]
fn removal_by_a_later_layer_drops_the_header() {
    let resolved = HeaderPipeline::new()
        .resolve(vec![
            HeaderLayer::new(HeaderSource::Provider, vec![set("x-drop", "1")]),
            HeaderLayer::new(HeaderSource::Request, vec![HeaderOperation::remove("x-drop")]),
            HeaderLayer::new(HeaderSource::Auth, vec![secret("authorization", "Bearer k")]),
            protocol_layer(),
        ])
        .unwrap();
    assert!(!resolved.contains("x-drop"));
    assert_eq!(resolved.final_source("x-drop"), None);
}

#[test]
fn ordinary_layers_cannot_write_protected_headers() {
    let pipeline = HeaderPipeline::new();
    for (source, name) in [
        (HeaderSource::Request, "authorization"),
        (HeaderSource::Model, "host"),
        (HeaderSource::DynamicPolicy, "content-type"),
        (HeaderSource::Request, "user-agent"),
        (HeaderSource::Provider, "content-length"),
        (HeaderSource::Request, "cookie"),
    ] {
        let err = pipeline
            .resolve(vec![HeaderLayer::new(source, vec![set(name, "v")]), protocol_layer()])
            .err()
            .unwrap();
        assert_eq!(
            refusal(err),
            (format!("request_headers.{name}"), "header is protected for this source".to_owned())
        );
    }
    assert!(protected_header("proxy-authorization"));
    assert!(!protected_header("x-custom"));
}

#[test]
fn auth_values_must_be_sensitive_and_ordinary_values_must_not() {
    let pipeline = HeaderPipeline::new();
    let err = pipeline
        .resolve(vec![
            HeaderLayer::new(HeaderSource::Auth, vec![set("authorization", "Bearer k")]),
            protocol_layer(),
        ])
        .err()
        .unwrap();
    assert_eq!(refusal(err).1, "authentication headers must be sensitive");
    let err = pipeline
        .resolve(vec![
            HeaderLayer::new(HeaderSource::Request, vec![secret("x-token", "v")]),
            protocol_layer(),
        ])
        .err()
        .unwrap();
    assert_eq!(refusal(err).1, "ordinary header layers cannot carry sensitive values");
}

#[test]
fn final_headers_need_json_content_type_and_an_auth_header() {
    let pipeline = HeaderPipeline::new();
    let err = pipeline
        .resolve(vec![HeaderLayer::new(
            HeaderSource::Auth,
            vec![secret("authorization", "Bearer k")],
        )])
        .err()
        .unwrap();
    assert_eq!(
        refusal(err),
        ("request_headers.content-type".to_owned(), "protocol must set application/json".to_owned())
    );
    let err = pipeline.resolve(vec![protocol_layer()]).err().unwrap();
    assert_eq!(
        refusal(err),
        (
            "request_headers.auth".to_owned(),
            "auth layer must set a registered authentication header".to_owned()
        )
    );
    assert!(pipeline.resolve_without_auth_assumption(vec![protocol_layer()]).is_ok());
}

#[test]
fn registered_auth_and_provider_headers_belong_to_their_owner() {
    let pipeline = HeaderPipeline::with_registered_headers(
        vec!["x-api-key".to_owned()],
        vec!["anthropic-version".to_owned()],
    );
    assert!(pipeline.policy().is_auth_header("x-api-key"));
    assert!(pipeline.policy().is_protected("anthropic-version"));
    let resolved = pipeline
        .resolve(vec![
            HeaderLayer::new(HeaderSource::Provider, vec![set("anthropic-version", "2023-06-01")]),
            HeaderLayer::new(HeaderSource::Auth, vec![secret("x-api-key", "k")]),
            protocol_layer(),
        ])
        .unwrap();
    assert_eq!(resolved.final_source("x-api-key"), Some(HeaderSource::Auth));
    let err = pipeline
        .resolve(vec![
            HeaderLayer::new(HeaderSource::Request, vec![set("anthropic-version", "9")]),
            HeaderLayer::new(HeaderSource::Auth, vec![secret("x-api-key", "k")]),
            protocol_layer(),
        ])
        .err()
        .unwrap();
    assert_eq!(refusal(err).0, "request_headers.anthropic-version");
    let err = pipeline
        .resolve(vec![
            HeaderLayer::new(HeaderSource::Provider, vec![set("x-api-key", "k")]),
            protocol_layer(),
        ])
        .err()
        .unwrap();
    assert_eq!(refusal(err).0, "request_headers.x-api-key");
}

#[test]
fn default_policy_registers_authorization_only() {
    let policy = HeaderPolicy::default();
    assert!(policy.is_auth_header("authorization"));
    assert!(!policy.is_auth_header("x-api-key"));
    assert!(HeaderPolicy::new().is_protected("authorization"));
}

#[test]
fn client_identity_writes_user_agent() {
    let op = ClientIdentity::new("my-app", "1.2").unwrap().operation().unwrap();
    assert_eq!(op.name(), "user-agent");
    let resolved = HeaderPipeline::new()
        .resolve(vec![
            HeaderLayer::new(HeaderSource::ClientIdentity, vec![op]),
            HeaderLayer::new(HeaderSource::Auth, vec![secret("authorization", "Bearer k")]),
            protocol_layer(),
        ])
        .unwrap();
    assert_eq!(resolved.get("user-agent").unwrap().as_slice(), b"my-app/1.2");
}
