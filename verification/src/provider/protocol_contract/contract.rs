//! Closed, strongly typed protocol contracts and protocol-option validation.

use vstd::prelude::*;

use crate::domain::{
    CapabilityStatus, HistoryPolicy, MissingToolResultPolicy, PolicySource, ProtocolOptions,
    ThinkingReplayPolicy, UnsupportedContentPolicy,
};
use crate::error::{configuration, is_configuration, is_validation, validation, LlmError, ValidationReason};
use crate::provider::capability::{ProtocolDialect, ProviderCapabilities};

use super::profile::{compat_conflict, CompatField, CompatProfile};
use super::response::AnthropicUsageCompat;

verus! {

/// Closed, strongly typed protocol contract selected by a provider definition.
#[derive(Clone, Copy, Debug, PartialEq, Eq, Structural)]
pub enum ResolvedProtocolContract {
    /// `OpenAI` Chat Completions behavior, including reviewed compatibility deviations.
    OpenAiChat(OpenAiChatContract),
    /// Anthropic Messages behavior.
    AnthropicMessages(AnthropicMessagesContract),
}

/// The contract belongs to the dialect.
pub open spec fn contract_matches(c: ResolvedProtocolContract, d: ProtocolDialect) -> bool {
    match (c, d) {
        (ResolvedProtocolContract::OpenAiChat(_), ProtocolDialect::OpenAiChatCompletions) => true,
        (ResolvedProtocolContract::AnthropicMessages(_), ProtocolDialect::AnthropicMessages) => true,
        _ => false,
    }
}

/// The validation failure, as field, reason and summary, for one protocol-scoped option
/// under the given support state; `None` when the option is supported.
pub open spec fn option_failure(field: Seq<char>, status: CapabilityStatus) -> Option<
    (Seq<char>, ValidationReason, Seq<char>),
> {
    match status {
        CapabilityStatus::Supported => None,
        CapabilityStatus::Unsupported => Some(
            (
                field,
                ValidationReason::CapabilityUnsupported,
                "selected model does not support this protocol-scoped option"@,
            ),
        ),
        CapabilityStatus::Unknown => Some(
            (
                field,
                ValidationReason::CapabilityUnknown,
                "selected model support for this protocol-scoped option is unknown"@,
            ),
        ),
    }
}

/// The first failure of protocol-scoped options against a contract and capabilities.
pub open spec fn options_failure(
    contract: ResolvedProtocolContract,
    options: Option<ProtocolOptions>,
    capabilities: ProviderCapabilities,
) -> Option<(Seq<char>, ValidationReason, Seq<char>)> {
    match (contract, options) {
        (_, None) => None,
        (ResolvedProtocolContract::OpenAiChat(_), Some(ProtocolOptions::OpenAiChat(_))) => None,
        (
            ResolvedProtocolContract::AnthropicMessages(_),
            Some(ProtocolOptions::AnthropicMessages(o)),
        ) => if o.spec_adaptive_thinking() is Some && option_failure(
            "protocol_options.anthropic.adaptive_thinking"@,
            capabilities.adaptive_thinking,
        ) is Some {
            option_failure(
                "protocol_options.anthropic.adaptive_thinking"@,
                capabilities.adaptive_thinking,
            )
        } else if o.spec_effort() is Some {
            option_failure("protocol_options.anthropic.effort"@, capabilities.adaptive_thinking_effort)
        } else {
            None
        },
        _ => Some(
            (
                "protocol_options"@,
                ValidationReason::Conflict,
                "protocol-scoped options do not match the selected runtime protocol"@,
            ),
        ),
    }
}

impl ResolvedProtocolContract {
    /// The strict `OpenAI` Chat contract with protocol-default compatibility.
    pub fn strict_openai_chat() -> (r: Self)
        ensures
            r matches ResolvedProtocolContract::OpenAiChat(c) && c.spec_compat().spec_request()
                == super::request::request_defaults() && c.spec_compat().spec_response()
                == super::response::response_defaults() && c.spec_compat().spec_history()
                == super::history::history_defaults() && forall|f: CompatField|
                c.spec_compat().spec_source(f) == PolicySource::ProtocolDefault,
    {
        ResolvedProtocolContract::OpenAiChat(OpenAiChatContract::strict())
    }

    /// The strict official Anthropic Messages contract.
    pub fn strict_anthropic_messages() -> (r: Self)
        ensures
            r == ResolvedProtocolContract::AnthropicMessages(strict_official_anthropic()),
    {
        ResolvedProtocolContract::AnthropicMessages(AnthropicMessagesContract::strict_official())
    }

    /// Whether the contract belongs to `dialect`.
    pub fn matches_dialect(&self, dialect: ProtocolDialect) -> (r: bool)
        ensures
            r == contract_matches(*self, dialect),
    {
        match (self, dialect) {
            (ResolvedProtocolContract::OpenAiChat(_), ProtocolDialect::OpenAiChatCompletions) => true,
            (ResolvedProtocolContract::AnthropicMessages(_), ProtocolDialect::AnthropicMessages) => true,
            _ => false,
        }
    }

    /// Value-free contract label.
    pub fn label(&self) -> (r: &'static str)
        ensures
            r@ == match *self {
                ResolvedProtocolContract::OpenAiChat(_) => "openai-chat"@,
                ResolvedProtocolContract::AnthropicMessages(_) => "anthropic-messages"@,
            },
    {
        match self {
            ResolvedProtocolContract::OpenAiChat(_) => "openai-chat",
            ResolvedProtocolContract::AnthropicMessages(_) => "anthropic-messages",
        }
    }

    /// Returns the `OpenAI` Chat contract, if this is one.
    pub fn openai_chat(&self) -> (r: Option<&OpenAiChatContract>)
        ensures
            match *self {
                ResolvedProtocolContract::OpenAiChat(c) => r == Some(&c),
                ResolvedProtocolContract::AnthropicMessages(_) => r is None,
            },
    {
        match self {
            ResolvedProtocolContract::OpenAiChat(contract) => Some(contract),
            ResolvedProtocolContract::AnthropicMessages(_) => None,
        }
    }

    /// Returns the Anthropic Messages contract, if this is one.
    pub fn anthropic_messages(&self) -> (r: Option<&AnthropicMessagesContract>)
        ensures
            match *self {
                ResolvedProtocolContract::AnthropicMessages(c) => r == Some(&c),
                ResolvedProtocolContract::OpenAiChat(_) => r is None,
            },
    {
        match self {
            ResolvedProtocolContract::AnthropicMessages(contract) => Some(contract),
            ResolvedProtocolContract::OpenAiChat(_) => None,
        }
    }

    /// History normalization policy of the contract.
    pub fn history_policy(&self) -> (r: HistoryPolicy)
        ensures
            r == match *self {
                ResolvedProtocolContract::OpenAiChat(c) => HistoryPolicy {
                    missing_tool_result: c.spec_compat().spec_history().missing_tool_result,
                    unsupported_content: c.spec_compat().spec_history().unsupported_content,
                    thinking_replay: c.spec_compat().spec_history().thinking_replay,
                },
                ResolvedProtocolContract::AnthropicMessages(c) => HistoryPolicy {
                    missing_tool_result: c.missing_tool_result,
                    unsupported_content: c.unsupported_content,
                    thinking_replay: c.thinking_replay,
                },
            },
    {
        match self {
            ResolvedProtocolContract::OpenAiChat(contract) => {
                let history = contract.compat().history();
                HistoryPolicy {
                    missing_tool_result: history.missing_tool_result,
                    unsupported_content: history.unsupported_content,
                    thinking_replay: history.thinking_replay,
                }
            },
            ResolvedProtocolContract::AnthropicMessages(contract) => HistoryPolicy {
                missing_tool_result: contract.missing_tool_result,
                unsupported_content: contract.unsupported_content,
                thinking_replay: contract.thinking_replay,
            },
        }
    }

    /// Validates protocol-scoped request options against the resolved contract and the
    /// exact model capabilities selected for this call. Options for the wrong protocol are
    /// rejected before any capability is consulted.
    pub fn validate_options(
        &self,
        options: Option<&ProtocolOptions>,
        capabilities: &ProviderCapabilities,
    ) -> (r: Result<(), LlmError>)
        ensures
            ({
                let o = match options {
                    None => None,
                    Some(x) => Some(*x),
                };
                match options_failure(*self, o, *capabilities) {
                    None => r is Ok,
                    Some(f) => r matches Err(e) && is_validation(e, f.0, f.1, f.2),
                }
            }),
    {
        match (self, options) {
            (_, None) => Ok(()),
            (ResolvedProtocolContract::OpenAiChat(_), Some(ProtocolOptions::OpenAiChat(_))) => Ok(()),
            (
                ResolvedProtocolContract::AnthropicMessages(_),
                Some(ProtocolOptions::AnthropicMessages(options)),
            ) => {
                if options.adaptive_thinking().is_some() {
                    validate_protocol_capability(
                        "protocol_options.anthropic.adaptive_thinking",
                        capabilities.adaptive_thinking,
                    )?;
                }
                if options.effort().is_some() {
                    validate_protocol_capability(
                        "protocol_options.anthropic.effort",
                        capabilities.adaptive_thinking_effort,
                    )?;
                }
                Ok(())
            },
            _ => Err(
                validation(
                    "protocol_options",
                    ValidationReason::Conflict,
                    "protocol-scoped options do not match the selected runtime protocol",
                ),
            ),
        }
    }

    /// Rejects a resolved contract that contradicts the capabilities it will run under.
    pub fn validate_capabilities(&self, capabilities: &ProviderCapabilities) -> (r: Result<
        (),
        LlmError,
    >)
        ensures
            match *self {
                ResolvedProtocolContract::OpenAiChat(c) => match compat_conflict(
                    c.spec_compat(),
                    *capabilities,
                ) {
                    Some(message) => r matches Err(e) && is_configuration(e, message),
                    None => r is Ok,
                },
                ResolvedProtocolContract::AnthropicMessages(_) => r is Ok,
            },
    {
        match self {
            ResolvedProtocolContract::OpenAiChat(contract) => contract.compat().validate_against(
                capabilities,
            ),
            ResolvedProtocolContract::AnthropicMessages(_) => Ok(()),
        }
    }

    /// Returns the stable source used by the plan's protocol provenance summary.
    pub fn provenance_source(&self) -> (r: PolicySource)
        ensures
            r == match *self {
                ResolvedProtocolContract::OpenAiChat(c) => c.spec_compat().spec_source(
                    CompatField::RequestMaxOutputTokens,
                ),
                ResolvedProtocolContract::AnthropicMessages(_) => PolicySource::ProtocolDefault,
            },
    {
        match self {
            ResolvedProtocolContract::OpenAiChat(contract) => contract.compat().source(
                CompatField::RequestMaxOutputTokens,
            ),
            ResolvedProtocolContract::AnthropicMessages(_) => PolicySource::ProtocolDefault,
        }
    }
}

fn validate_protocol_capability(field: &str, status: CapabilityStatus) -> (r: Result<
    (),
    LlmError,
>)
    ensures
        match option_failure(field@, status) {
            None => r is Ok,
            Some(f) => r matches Err(e) && is_validation(e, f.0, f.1, f.2),
        },
{
    match status {
        CapabilityStatus::Supported => Ok(()),
        CapabilityStatus::Unsupported => Err(
            validation(
                field,
                ValidationReason::CapabilityUnsupported,
                "selected model does not support this protocol-scoped option",
            ),
        ),
        CapabilityStatus::Unknown => Err(
            validation(
                field,
                ValidationReason::CapabilityUnknown,
                "selected model support for this protocol-scoped option is unknown",
            ),
        ),
    }
}

/// Complete `OpenAI` Chat Completions contract for one call.
#[derive(Clone, Copy, Debug, PartialEq, Eq, Structural)]
pub struct OpenAiChatContract {
    compat: CompatProfile,
}

impl OpenAiChatContract {
    pub closed spec fn spec_compat(self) -> CompatProfile {
        self.compat
    }

    /// The contract with protocol-default compatibility.
    pub fn strict() -> (r: Self)
        ensures
            r.spec_compat().spec_request() == super::request::request_defaults(),
            r.spec_compat().spec_response() == super::response::response_defaults(),
            r.spec_compat().spec_history() == super::history::history_defaults(),
            forall|f: CompatField| r.spec_compat().spec_source(f) == PolicySource::ProtocolDefault,
    {
        OpenAiChatContract { compat: CompatProfile::openai_chat_default() }
    }

    /// The contract carrying a resolved compatibility profile.
    pub fn from_compat(compat: CompatProfile) -> (r: Self)
        ensures
            r.spec_compat() == compat,
    {
        OpenAiChatContract { compat }
    }

    /// Returns the compatibility profile.
    pub fn compat(&self) -> (r: &CompatProfile)
        ensures
            *r == self.spec_compat(),
    {
        &self.compat
    }
}

/// Ownership rule for the required `anthropic-version` header.
#[derive(Clone, Copy, Debug, PartialEq, Eq, Structural)]
pub enum AnthropicVersionHeaderPolicy {
    /// The provider definition must install and protect the header.
    ProviderRequired,
}

/// Ownership rule for the optional `anthropic-beta` header.
#[derive(Clone, Copy, Debug, PartialEq, Eq, Structural)]
pub enum AnthropicBetaHeaderPolicy {
    /// The provider definition owns the header and may explicitly remove it.
    ProviderControlled,
}

/// Required successful terminal event behavior.
#[derive(Clone, Copy, Debug, PartialEq, Eq, Structural)]
pub enum AnthropicTerminalPolicy {
    /// A successful stream must end with `message_stop`.
    RequireMessageStop,
}

/// Unknown-event and event/type mismatch behavior.
#[derive(Clone, Copy, Debug, PartialEq, Eq, Structural)]
pub enum AnthropicEventPolicy {
    /// Ignore unknown event types but reject a known event whose JSON type differs.
    IgnoreUnknownRejectMismatch,
}

/// Tool input block completion behavior.
#[derive(Clone, Copy, Debug, PartialEq, Eq, Structural)]
pub enum AnthropicToolBlockPolicy {
    /// A tool block must close with complete, valid JSON.
    RequireCompleteJson,
}

/// Thinking/signature/redacted replay behavior.
#[derive(Clone, Copy, Debug, PartialEq, Eq, Structural)]
pub enum AnthropicThinkingPolicy {
    /// Preserve opaque state only for same-source replay and never expose it as answer text.
    SameSourceOpaque,
}

/// HTTP and stream error-envelope expectation.
#[derive(Clone, Copy, Debug, PartialEq, Eq, Structural)]
pub enum AnthropicErrorEnvelopePolicy {
    /// Decode the official typed envelope and retain only safe code/request-id metadata.
    TypedOfficial,
}

/// Versioned system/history mapping semantics.
#[derive(Clone, Copy, Debug, PartialEq, Eq, Structural)]
pub enum AnthropicHistorySemantics {
    /// Top-level system blocks plus alternating user/assistant Messages history.
    Messages2023,
}

/// Complete Anthropic Messages contract for one call.
#[derive(Clone, Copy, Debug, PartialEq, Eq, Structural)]
pub struct AnthropicMessagesContract {
    pub version_header: AnthropicVersionHeaderPolicy,
    pub beta_header: AnthropicBetaHeaderPolicy,
    pub terminal: AnthropicTerminalPolicy,
    pub events: AnthropicEventPolicy,
    pub usage: AnthropicUsageCompat,
    pub tool_blocks: AnthropicToolBlockPolicy,
    pub thinking: AnthropicThinkingPolicy,
    pub error_envelope: AnthropicErrorEnvelopePolicy,
    pub history_semantics: AnthropicHistorySemantics,
    pub missing_tool_result: MissingToolResultPolicy,
    pub unsupported_content: UnsupportedContentPolicy,
    pub thinking_replay: ThinkingReplayPolicy,
}

/// The strict official Anthropic Messages contract.
pub open spec fn strict_official_anthropic() -> AnthropicMessagesContract {
    AnthropicMessagesContract {
        version_header: AnthropicVersionHeaderPolicy::ProviderRequired,
        beta_header: AnthropicBetaHeaderPolicy::ProviderControlled,
        terminal: AnthropicTerminalPolicy::RequireMessageStop,
        events: AnthropicEventPolicy::IgnoreUnknownRejectMismatch,
        usage: AnthropicUsageCompat::StrictStableFields,
        tool_blocks: AnthropicToolBlockPolicy::RequireCompleteJson,
        thinking: AnthropicThinkingPolicy::SameSourceOpaque,
        error_envelope: AnthropicErrorEnvelopePolicy::TypedOfficial,
        history_semantics: AnthropicHistorySemantics::Messages2023,
        missing_tool_result: MissingToolResultPolicy::Reject,
        unsupported_content: UnsupportedContentPolicy::Reject,
        thinking_replay: ThinkingReplayPolicy::SameSourceOnly,
    }
}

impl AnthropicMessagesContract {
    /// The strict official Anthropic Messages contract.
    pub fn strict_official() -> (r: Self)
        ensures
            r == strict_official_anthropic(),
    {
        AnthropicMessagesContract {
            version_header: AnthropicVersionHeaderPolicy::ProviderRequired,
            beta_header: AnthropicBetaHeaderPolicy::ProviderControlled,
            terminal: AnthropicTerminalPolicy::RequireMessageStop,
            events: AnthropicEventPolicy::IgnoreUnknownRejectMismatch,
            usage: AnthropicUsageCompat::StrictStableFields,
            tool_blocks: AnthropicToolBlockPolicy::RequireCompleteJson,
            thinking: AnthropicThinkingPolicy::SameSourceOpaque,
            error_envelope: AnthropicErrorEnvelopePolicy::TypedOfficial,
            history_semantics: AnthropicHistorySemantics::Messages2023,
            missing_tool_result: MissingToolResultPolicy::Reject,
            unsupported_content: UnsupportedContentPolicy::Reject,
            thinking_replay: ThinkingReplayPolicy::SameSourceOnly,
        }
    }

    /// The same contract with another usage interpretation.
    pub fn with_usage_compat(self, usage: AnthropicUsageCompat) -> (r: Self)
        ensures
            r == (AnthropicMessagesContract { usage, ..self }),
    {
        AnthropicMessagesContract { usage, ..self }
    }
}

} // verus!
