use philo::domain::{
    AnthropicEffort, AnthropicMessagesOptions, AnthropicThinkingDisplay, CapabilityStatus,
    OpenAiChatOptions, PolicySource, ProtocolOptions,
};
use philo::error::{LlmError, ValidationReason};
use philo::provider::capability::ProviderCapabilities;
use philo::provider::protocol_contract::{
    CompatField, CompatProfile, MaxOutputTokensWireFormat, OpenAiChatContract,
    ResolvedProtocolContract, ToolArgumentsCompat,
};

#[test]
fn anthropic_contract_owns_option_capability_errors_and_priority() {
    let contract = ResolvedProtocolContract::strict_anthropic_messages();
    let options: ProtocolOptions = AnthropicMessagesOptions::new()
        .with_adaptive_thinking(AnthropicThinkingDisplay::Omitted)
        .with_effort(AnthropicEffort::High)
        .into();
    let mut capabilities = ProviderCapabilities::conservative_messages();
    capabilities.adaptive_thinking = CapabilityStatus::Unsupported;
    capabilities.adaptive_thinking_effort = CapabilityStatus::Unknown;

    let error = contract.validate_options(Some(&options), &capabilities).unwrap_err();
    assert!(matches!(
        error,
        LlmError::Validation(ref error)
            if error.field() == "protocol_options.anthropic.adaptive_thinking"
                && error.reason() == ValidationReason::CapabilityUnsupported
    ));
}

#[test]
fn contract_rejects_wrong_options_before_variant_specific_policy() {
    let contract = ResolvedProtocolContract::strict_anthropic_messages();
    let options: ProtocolOptions = OpenAiChatOptions::new().into();
    let capabilities = ProviderCapabilities::conservative_messages();

    let error = contract.validate_options(Some(&options), &capabilities).unwrap_err();
    assert!(matches!(
        error,
        LlmError::Validation(ref error)
            if error.field() == "protocol_options"
                && error.reason() == ValidationReason::Conflict
    ));
}

#[test]
fn protocol_provenance_summary_is_variant_neutral_to_callers() {
    let compat = CompatProfile::openai_chat_default()
        .with_max_output_tokens(MaxOutputTokensWireFormat::MaxTokens, PolicySource::ModelProfile);
    let openai = ResolvedProtocolContract::OpenAiChat(OpenAiChatContract::from_compat(compat));
    assert_eq!(openai.provenance_source(), PolicySource::ModelProfile);
    assert_eq!(
        openai
            .openai_chat()
            .unwrap()
            .compat()
            .source(CompatField::RequestMaxOutputTokens),
        PolicySource::ModelProfile
    );
    assert_eq!(
        ResolvedProtocolContract::strict_anthropic_messages().provenance_source(),
        PolicySource::ProtocolDefault
    );
}

#[test]
fn openai_contract_owns_resolved_compat_capability_validation() {
    let compat = CompatProfile::openai_chat_default()
        .with_tool_arguments(ToolArgumentsCompat::StringOrObject, PolicySource::ProviderProfile);
    let contract = ResolvedProtocolContract::OpenAiChat(OpenAiChatContract::from_compat(compat));
    let capabilities = ProviderCapabilities::conservative_chat_completions();

    assert!(matches!(
        contract.validate_capabilities(&capabilities),
        Err(LlmError::Configuration(message))
            if message == "tool argument compatibility requires explicit function tool support"
    ));
}
