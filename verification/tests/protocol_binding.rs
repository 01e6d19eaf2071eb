use philo::domain::{ProtocolId, ProtocolKind};
use philo::provider::capability::ProtocolDialect;
use philo::provider::protocol_contract::{ResolvedProtocolContract, ValidatedProtocolBinding};

#[test]
fn valid_openai_binding_exposes_one_consistent_identity() {
    let binding = ValidatedProtocolBinding::openai_chat();
    assert_eq!(binding.id().as_str(), "openai-chat-completions");
    assert_eq!(binding.kind(), ProtocolKind::OpenAiChatCompletions);
    assert_eq!(binding.dialect(), ProtocolDialect::OpenAiChatCompletions);
    assert!(matches!(binding.contract(), ResolvedProtocolContract::OpenAiChat(_)));
}

#[test]
fn valid_anthropic_binding_exposes_one_consistent_identity() {
    let binding = ValidatedProtocolBinding::anthropic_messages();
    assert_eq!(binding.id().as_str(), "anthropic-messages");
    assert_eq!(binding.kind(), ProtocolKind::AnthropicMessages);
    assert_eq!(binding.dialect(), ProtocolDialect::AnthropicMessages);
    assert!(matches!(binding.contract(), ResolvedProtocolContract::AnthropicMessages(_)));
}

#[test]
fn every_id_dialect_contract_kind_mismatch_is_rejected() {
    let ids = ["openai-chat-completions", "anthropic-messages", "unsupported-protocol"];
    let dialects = [ProtocolDialect::OpenAiChatCompletions, ProtocolDialect::AnthropicMessages];
    for id in ids {
        for dialect in dialects {
            for contract in [
                ResolvedProtocolContract::strict_openai_chat(),
                ResolvedProtocolContract::strict_anthropic_messages(),
            ] {
                let expected_valid = matches!(
                    (id, dialect, &contract),
                    (
                        "openai-chat-completions",
                        ProtocolDialect::OpenAiChatCompletions,
                        ResolvedProtocolContract::OpenAiChat(_)
                    ) | (
                        "anthropic-messages",
                        ProtocolDialect::AnthropicMessages,
                        ResolvedProtocolContract::AnthropicMessages(_)
                    )
                );
                let actual =
                    ValidatedProtocolBinding::new(ProtocolId::new(id).unwrap(), dialect, contract);
                assert_eq!(actual.is_ok(), expected_valid);
            }
        }
    }
}

#[test]
fn model_contract_override_must_match_binding_dialect() {
    let binding = ValidatedProtocolBinding::openai_chat();
    assert!(binding.validate_contract(&ResolvedProtocolContract::strict_openai_chat()).is_ok());
    assert!(binding
        .validate_contract(&ResolvedProtocolContract::strict_anthropic_messages())
        .is_err());
}

#[test]
fn binding_debug_is_value_free() {
    let binding = ValidatedProtocolBinding::openai_chat();
    let debug = binding.debug_summary();
    assert!(debug.contains("openai-chat-completions"));
    assert!(debug.contains("OpenAiChatCompletions"));
    assert!(debug.contains("openai-chat"));
    assert!(!debug.contains("CompatProfile"));
    assert!(!debug.contains("PolicySource"));
}
