use philo::error::{LlmError, ValidationReason};
use philo::provider::idempotency::{
    IdempotencyCapability, IdempotencyKey, IdempotencyKeySource, IdempotencyPolicy,
    ResolvedIdempotency,
};

#[test]
fn caller_keys_are_bounded_and_use_a_safe_alphabet() {
    assert_eq!(IdempotencyKey::new("order-42:retry.1_x").unwrap().header_value(), "order-42:retry.1_x");
    assert_eq!(IdempotencyKey::new("").err().unwrap().reason(), ValidationReason::Empty);
    assert_eq!(IdempotencyKey::new(&"k".repeat(129)).err().unwrap().reason(), ValidationReason::OutOfRange);
    assert!(IdempotencyKey::new(&"k".repeat(128)).is_ok());
    let err = IdempotencyKey::new("has space").err().unwrap();
    assert_eq!(err.reason(), ValidationReason::InvalidIdentifier);
    assert_eq!(err.field(), "idempotency_key");
}

#[test]
fn generated_keys_are_prefixed_random_hex() {
    let a = IdempotencyKey::generate();
    let b = IdempotencyKey::generate();
    for key in [&a, &b] {
        let text = key.header_value();
        assert_eq!(text.len(), 38);
        assert!(text.starts_with("philo_"));
        assert!(text[6..].bytes().all(|c| c.is_ascii_digit() || (b'a'..=b'f').contains(&c)));
        assert_eq!(text.as_bytes()[18], b'4');
        assert!(b"89ab".contains(&text.as_bytes()[22]));
    }
    assert_ne!(a.header_value(), b.header_value());
}

#[test]
fn keys_need_declared_support() {
    let key = IdempotencyKey::new("k1").unwrap();
    for (policy, reason) in [
        (IdempotencyPolicy::unknown(), ValidationReason::CapabilityUnknown),
        (IdempotencyPolicy::unsupported(), ValidationReason::CapabilityUnsupported),
    ] {
        match ResolvedIdempotency::resolve(&policy, Some(&key), false, false).err().unwrap() {
            LlmError::Validation(v) => {
                assert_eq!(v.reason(), reason);
                assert_eq!(v.summary(), "selected provider does not declare idempotency-key support");
            }
            other => panic!("unexpected {other:?}"),
        }
        assert!(ResolvedIdempotency::resolve(&policy, None, true, false).is_err());
        let none = ResolvedIdempotency::resolve(&policy, None, false, true).unwrap();
        assert!(!none.is_present());
        assert_eq!(none.header_entry(), None);
    }
}

#[test]
fn supported_policies_use_caller_keys_or_generate_for_retries() {
    let policy = IdempotencyPolicy::standard_header();
    assert_eq!(policy.capability(), IdempotencyCapability::Supported);
    assert_eq!(policy.header_name(), Some("idempotency-key"));
    let key = IdempotencyKey::new("caller-1").unwrap();
    let resolved = ResolvedIdempotency::resolve(&policy, Some(&key), false, true).unwrap();
    assert_eq!(resolved.header_entry(), Some(("idempotency-key", "caller-1")));
    assert_eq!(resolved.source(), Some(IdempotencyKeySource::Caller));
    let generated = ResolvedIdempotency::resolve(&policy, None, false, true).unwrap();
    assert_eq!(generated.source(), Some(IdempotencyKeySource::SdkGenerated));
    assert!(generated.header_entry().unwrap().1.starts_with("philo_"));
    let absent = ResolvedIdempotency::resolve(&policy, None, false, false).unwrap();
    assert!(!absent.is_present());
    assert_eq!(absent.capability(), IdempotencyCapability::Supported);
}
