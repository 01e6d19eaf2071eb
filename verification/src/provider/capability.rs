//! Provider capability, dialect, and transport safety declarations.

use vstd::prelude::*;

use crate::domain::{CapabilitySet, CapabilityStatus, ModelId, ReasoningEffortSupport};
use crate::error::{configuration, is_configuration, LlmError};
use crate::provider::catalog::entry::{unknown_capabilities, CatalogCapabilities};
use crate::provider::endpoint::policy::RedirectPolicy;

verus! {

/// Date on which official phase-two capability declarations were last reviewed.
pub const OFFICIAL_OPENAI_CAPABILITY_REVIEW_DATE: &'static str = "2026-07-19";

/// Date on which the official Anthropic Messages capability declarations were reviewed.
pub const OFFICIAL_ANTHROPIC_CAPABILITY_REVIEW_DATE: &'static str = "2026-07-25";

/// Provider defaults before an exact model capability profile is applied.
#[derive(Clone, Copy, Debug, PartialEq, Eq, Structural)]
pub struct ProviderCapabilities {
    /// Developer-role message support.
    pub developer_role: CapabilityStatus,
    /// Temperature option support.
    pub temperature: CapabilityStatus,
    /// Maximum completion token option support.
    pub max_completion_tokens: CapabilityStatus,
    /// SSE streaming support.
    pub streaming: CapabilityStatus,
    /// Streaming usage support.
    pub streaming_usage: CapabilityStatus,
    /// Function tools.
    pub function_tools: CapabilityStatus,
    /// Required tool choice.
    pub tool_choice_required: CapabilityStatus,
    /// Specific tool choice.
    pub tool_choice_specific: CapabilityStatus,
    /// Parallel tool calls.
    pub parallel_tool_calls: CapabilityStatus,
    /// Strict tools.
    pub strict_tools: CapabilityStatus,
    /// Vision input.
    pub vision_input: CapabilityStatus,
    /// Original image detail.
    pub image_detail_original: CapabilityStatus,
    /// JSON object output.
    pub response_format_json_object: CapabilityStatus,
    /// JSON schema output.
    pub response_format_json_schema: CapabilityStatus,
    /// Reasoning efforts.
    pub reasoning_efforts: ReasoningEffortSupport,
    /// Protocol-scoped adaptive-thinking request support.
    pub adaptive_thinking: CapabilityStatus,
    /// Protocol-scoped adaptive-thinking effort support.
    pub adaptive_thinking_effort: CapabilityStatus,
}

/// The capabilities of `caps` after an exact model declaration replaced every model-level fact.
pub open spec fn with_model_facts(caps: ProviderCapabilities, profile: CatalogCapabilities) -> ProviderCapabilities {
    (ProviderCapabilities { function_tools: profile.function_tools, tool_choice_required: profile.tool_choice_required, tool_choice_specific: profile.tool_choice_specific, parallel_tool_calls: profile.parallel_tool_calls, strict_tools: profile.strict_tools, vision_input: profile.vision_input, image_detail_original: profile.image_detail_original, response_format_json_object: profile.response_format_json_object, response_format_json_schema: profile.response_format_json_schema, reasoning_efforts: profile.reasoning_efforts, adaptive_thinking: profile.adaptive_thinking, adaptive_thinking_effort: profile.adaptive_thinking_effort, ..caps })
}

/// The reviewed official `OpenAI` declaration.
pub open spec fn official_openai_capabilities() -> ProviderCapabilities {
    ProviderCapabilities {
        developer_role: CapabilityStatus::Supported,
        temperature: CapabilityStatus::Supported,
        max_completion_tokens: CapabilityStatus::Supported,
        streaming: CapabilityStatus::Supported,
        streaming_usage: CapabilityStatus::Supported,
        function_tools: CapabilityStatus::Unknown,
        tool_choice_required: CapabilityStatus::Unknown,
        tool_choice_specific: CapabilityStatus::Unknown,
        parallel_tool_calls: CapabilityStatus::Unknown,
        strict_tools: CapabilityStatus::Unknown,
        vision_input: CapabilityStatus::Unknown,
        image_detail_original: CapabilityStatus::Unknown,
        response_format_json_object: CapabilityStatus::Unknown,
        response_format_json_schema: CapabilityStatus::Unknown,
        reasoning_efforts: ReasoningEffortSupport::Unknown,
        adaptive_thinking: CapabilityStatus::Unsupported,
        adaptive_thinking_effort: CapabilityStatus::Unsupported,
    }
}

/// The reviewed official Anthropic Messages declaration.
pub open spec fn official_anthropic_capabilities() -> ProviderCapabilities {
    ProviderCapabilities {
        developer_role: CapabilityStatus::Supported,
        temperature: CapabilityStatus::Supported,
        max_completion_tokens: CapabilityStatus::Supported,
        streaming: CapabilityStatus::Supported,
        streaming_usage: CapabilityStatus::Supported,
        function_tools: CapabilityStatus::Supported,
        tool_choice_required: CapabilityStatus::Supported,
        tool_choice_specific: CapabilityStatus::Supported,
        parallel_tool_calls: CapabilityStatus::Supported,
        strict_tools: CapabilityStatus::Supported,
        vision_input: CapabilityStatus::Supported,
        image_detail_original: CapabilityStatus::Unsupported,
        response_format_json_object: CapabilityStatus::Unsupported,
        response_format_json_schema: CapabilityStatus::Supported,
        reasoning_efforts: ReasoningEffortSupport::Unsupported,
        adaptive_thinking: CapabilityStatus::Unknown,
        adaptive_thinking_effort: CapabilityStatus::Unknown,
    }
}

impl ProviderCapabilities {
    /// Returns a conservative custom `OpenAI` Chat declaration.
    ///
    /// Only core text generation, token limits, and streaming are declared;
    /// tools, images, structured output, and reasoning remain unknown.
    pub fn conservative_chat_completions() -> (r: Self)
        ensures
            r == Self::spec_openai_compatible(),
    {
        Self::openai_compatible()
    }

    pub open spec fn spec_openai_compatible() -> Self {
        ProviderCapabilities {
        developer_role: CapabilityStatus::Unknown,
        temperature: CapabilityStatus::Supported,
        max_completion_tokens: CapabilityStatus::Supported,
        streaming: CapabilityStatus::Supported,
        streaming_usage: CapabilityStatus::Supported,
        function_tools: CapabilityStatus::Unknown,
        tool_choice_required: CapabilityStatus::Unknown,
        tool_choice_specific: CapabilityStatus::Unknown,
        parallel_tool_calls: CapabilityStatus::Unknown,
        strict_tools: CapabilityStatus::Unknown,
        vision_input: CapabilityStatus::Unknown,
        image_detail_original: CapabilityStatus::Unknown,
        response_format_json_object: CapabilityStatus::Unknown,
        response_format_json_schema: CapabilityStatus::Unknown,
        reasoning_efforts: ReasoningEffortSupport::Unknown,
        adaptive_thinking: CapabilityStatus::Unsupported,
        adaptive_thinking_effort: CapabilityStatus::Unsupported,
    }
    }

    /// Returns a conservative custom Anthropic Messages declaration.
    ///
    /// Only core text generation, token limits, and streaming are declared;
    /// tools, images, structured output, and thinking remain unknown.
    pub fn conservative_messages() -> (r: Self)
        ensures
            r == (ProviderCapabilities {
            developer_role: CapabilityStatus::Supported,
            temperature: CapabilityStatus::Supported,
            max_completion_tokens: CapabilityStatus::Supported,
            streaming: CapabilityStatus::Supported,
            streaming_usage: CapabilityStatus::Supported,
            function_tools: CapabilityStatus::Unknown,
            tool_choice_required: CapabilityStatus::Unknown,
            tool_choice_specific: CapabilityStatus::Unknown,
            parallel_tool_calls: CapabilityStatus::Unknown,
            strict_tools: CapabilityStatus::Unknown,
            vision_input: CapabilityStatus::Unknown,
            image_detail_original: CapabilityStatus::Unsupported,
            response_format_json_object: CapabilityStatus::Unknown,
            response_format_json_schema: CapabilityStatus::Unknown,
            reasoning_efforts: ReasoningEffortSupport::Unsupported,
            adaptive_thinking: CapabilityStatus::Unknown,
            adaptive_thinking_effort: CapabilityStatus::Unknown,
        }),
    {
        ProviderCapabilities {
            developer_role: CapabilityStatus::Supported,
            temperature: CapabilityStatus::Supported,
            max_completion_tokens: CapabilityStatus::Supported,
            streaming: CapabilityStatus::Supported,
            streaming_usage: CapabilityStatus::Supported,
            function_tools: CapabilityStatus::Unknown,
            tool_choice_required: CapabilityStatus::Unknown,
            tool_choice_specific: CapabilityStatus::Unknown,
            parallel_tool_calls: CapabilityStatus::Unknown,
            strict_tools: CapabilityStatus::Unknown,
            vision_input: CapabilityStatus::Unknown,
            image_detail_original: CapabilityStatus::Unsupported,
            response_format_json_object: CapabilityStatus::Unknown,
            response_format_json_schema: CapabilityStatus::Unknown,
            reasoning_efforts: ReasoningEffortSupport::Unsupported,
            adaptive_thinking: CapabilityStatus::Unknown,
            adaptive_thinking_effort: CapabilityStatus::Unknown,
        }
    }

    /// Returns the subset used by domain request validation.
    pub fn generation_options(&self) -> (r: CapabilitySet)
        ensures
            r == (CapabilitySet {
                temperature: self.temperature,
                max_output_tokens: self.max_completion_tokens,
                function_tools: self.function_tools,
                tool_choice_required: self.tool_choice_required,
                tool_choice_specific: self.tool_choice_specific,
                parallel_tool_calls: self.parallel_tool_calls,
                strict_tools: self.strict_tools,
                vision_input: self.vision_input,
                image_detail_original: self.image_detail_original,
                response_format_json_object: self.response_format_json_object,
                response_format_json_schema: self.response_format_json_schema,
                reasoning_efforts: self.reasoning_efforts,
            }),
    {
        CapabilitySet {
            temperature: self.temperature,
            max_output_tokens: self.max_completion_tokens,
            function_tools: self.function_tools,
            tool_choice_required: self.tool_choice_required,
            tool_choice_specific: self.tool_choice_specific,
            parallel_tool_calls: self.parallel_tool_calls,
            strict_tools: self.strict_tools,
            vision_input: self.vision_input,
            image_detail_original: self.image_detail_original,
            response_format_json_object: self.response_format_json_object,
            response_format_json_schema: self.response_format_json_schema,
            reasoning_efforts: self.reasoning_efforts,
        }
    }

    /// Returns the reviewed official `OpenAI` declaration.
    pub fn official_openai() -> (r: Self)
        ensures
            r == official_openai_capabilities(),
    {
        ProviderCapabilities {
            developer_role: CapabilityStatus::Supported,
            temperature: CapabilityStatus::Supported,
            max_completion_tokens: CapabilityStatus::Supported,
            streaming: CapabilityStatus::Supported,
            streaming_usage: CapabilityStatus::Supported,
            function_tools: CapabilityStatus::Unknown,
            tool_choice_required: CapabilityStatus::Unknown,
            tool_choice_specific: CapabilityStatus::Unknown,
            parallel_tool_calls: CapabilityStatus::Unknown,
            strict_tools: CapabilityStatus::Unknown,
            vision_input: CapabilityStatus::Unknown,
            image_detail_original: CapabilityStatus::Unknown,
            response_format_json_object: CapabilityStatus::Unknown,
            response_format_json_schema: CapabilityStatus::Unknown,
            reasoning_efforts: ReasoningEffortSupport::Unknown,
            adaptive_thinking: CapabilityStatus::Unsupported,
            adaptive_thinking_effort: CapabilityStatus::Unsupported,
        }
    }

    /// Returns the reviewed official Anthropic Messages declaration.
    pub fn official_anthropic() -> (r: Self)
        ensures
            r == official_anthropic_capabilities(),
    {
        ProviderCapabilities {
            developer_role: CapabilityStatus::Supported,
            temperature: CapabilityStatus::Supported,
            max_completion_tokens: CapabilityStatus::Supported,
            streaming: CapabilityStatus::Supported,
            streaming_usage: CapabilityStatus::Supported,
            function_tools: CapabilityStatus::Supported,
            tool_choice_required: CapabilityStatus::Supported,
            tool_choice_specific: CapabilityStatus::Supported,
            parallel_tool_calls: CapabilityStatus::Supported,
            strict_tools: CapabilityStatus::Supported,
            vision_input: CapabilityStatus::Supported,
            image_detail_original: CapabilityStatus::Unsupported,
            response_format_json_object: CapabilityStatus::Unsupported,
            response_format_json_schema: CapabilityStatus::Supported,
            reasoning_efforts: ReasoningEffortSupport::Unsupported,
            adaptive_thinking: CapabilityStatus::Unknown,
            adaptive_thinking_effort: CapabilityStatus::Unknown,
        }
    }

    /// Conservative OpenAI-compatible base used by reviewed third-party presets.
    pub fn openai_compatible() -> (r: Self)
        ensures
            r == (ProviderCapabilities {
            developer_role: CapabilityStatus::Unknown,
            temperature: CapabilityStatus::Supported,
            max_completion_tokens: CapabilityStatus::Supported,
            streaming: CapabilityStatus::Supported,
            streaming_usage: CapabilityStatus::Supported,
            function_tools: CapabilityStatus::Unknown,
            tool_choice_required: CapabilityStatus::Unknown,
            tool_choice_specific: CapabilityStatus::Unknown,
            parallel_tool_calls: CapabilityStatus::Unknown,
            strict_tools: CapabilityStatus::Unknown,
            vision_input: CapabilityStatus::Unknown,
            image_detail_original: CapabilityStatus::Unknown,
            response_format_json_object: CapabilityStatus::Unknown,
            response_format_json_schema: CapabilityStatus::Unknown,
            reasoning_efforts: ReasoningEffortSupport::Unknown,
            adaptive_thinking: CapabilityStatus::Unsupported,
            adaptive_thinking_effort: CapabilityStatus::Unsupported,
        }),
    {
        ProviderCapabilities {
            developer_role: CapabilityStatus::Unknown,
            temperature: CapabilityStatus::Supported,
            max_completion_tokens: CapabilityStatus::Supported,
            streaming: CapabilityStatus::Supported,
            streaming_usage: CapabilityStatus::Supported,
            function_tools: CapabilityStatus::Unknown,
            tool_choice_required: CapabilityStatus::Unknown,
            tool_choice_specific: CapabilityStatus::Unknown,
            parallel_tool_calls: CapabilityStatus::Unknown,
            strict_tools: CapabilityStatus::Unknown,
            vision_input: CapabilityStatus::Unknown,
            image_detail_original: CapabilityStatus::Unknown,
            response_format_json_object: CapabilityStatus::Unknown,
            response_format_json_schema: CapabilityStatus::Unknown,
            reasoning_efforts: ReasoningEffortSupport::Unknown,
            adaptive_thinking: CapabilityStatus::Unsupported,
            adaptive_thinking_effort: CapabilityStatus::Unsupported,
        }
    }

    /// Requires explicit streaming and streaming-usage support.
    pub fn validate(&self) -> (r: Result<(), LlmError>)
        ensures
            self.streaming != CapabilityStatus::Supported ==> (r matches Err(e)
                && is_configuration(e, "profile must declare streaming support"@)),
            self.streaming == CapabilityStatus::Supported && self.streaming_usage
                != CapabilityStatus::Supported ==> (r matches Err(e) && is_configuration(
                e,
                "profile must declare streaming usage support"@,
            )),
            self.streaming == CapabilityStatus::Supported && self.streaming_usage
                == CapabilityStatus::Supported ==> r is Ok,
    {
        if self.streaming != CapabilityStatus::Supported {
            return Err(configuration("profile must declare streaming support"));
        }
        if self.streaming_usage != CapabilityStatus::Supported {
            return Err(configuration("profile must declare streaming usage support"));
        }
        Ok(())
    }

    /// Replaces every model-level fact with the exact model declaration.
    pub fn apply_model(&mut self, profile: &ModelCapabilityProfile)
        ensures
            *final(self) == with_model_facts(*old(self), profile@.1),
    {
        self.apply_catalog(&profile.capabilities);
    }

    /// Replaces every model-level fact with the exact catalog declaration.
    pub fn apply_catalog(&mut self, profile: &CatalogCapabilities)
        ensures
            *final(self) == with_model_facts(*old(self), *profile),
    {
        self.function_tools = profile.function_tools;
        self.tool_choice_required = profile.tool_choice_required;
        self.tool_choice_specific = profile.tool_choice_specific;
        self.parallel_tool_calls = profile.parallel_tool_calls;
        self.strict_tools = profile.strict_tools;
        self.vision_input = profile.vision_input;
        self.image_detail_original = profile.image_detail_original;
        self.response_format_json_object = profile.response_format_json_object;
        self.response_format_json_schema = profile.response_format_json_schema;
        self.reasoning_efforts = profile.reasoning_efforts;
        self.adaptive_thinking = profile.adaptive_thinking;
        self.adaptive_thinking_effort = profile.adaptive_thinking_effort;
    }
}

/// Capabilities declared for one exact [`ModelId`].
#[derive(Clone, Debug)]
pub struct ModelCapabilityProfile {
    model: ModelId,
    capabilities: CatalogCapabilities,
}

impl View for ModelCapabilityProfile {
    type V = (Seq<char>, CatalogCapabilities);

    closed spec fn view(&self) -> (Seq<char>, CatalogCapabilities) {
        (self.model@, self.capabilities)
    }
}

impl ModelCapabilityProfile {
    /// Creates an exact model profile whose capabilities are all unknown.
    pub fn new(model: ModelId) -> (r: Self)
        ensures
            r@ == (model@, unknown_capabilities()),
    {
        ModelCapabilityProfile { model, capabilities: CatalogCapabilities::all_unknown() }
    }

    /// Returns the exact model identifier.
    pub fn model(&self) -> (r: &ModelId)
        ensures
            r@ == self@.0,
    {
        &self.model
    }

    /// Sets function tool support.
    pub fn with_function_tools(self, status: CapabilityStatus) -> (r: Self)
        ensures
            r@ == (self@.0, CatalogCapabilities { function_tools: status, ..self@.1 }),
    {
        ModelCapabilityProfile { capabilities: CatalogCapabilities { function_tools: status, ..self.capabilities }, ..self }
    }

    /// Sets required tool-choice support.
    pub fn with_tool_choice_required(self, status: CapabilityStatus) -> (r: Self)
        ensures
            r@ == (self@.0, CatalogCapabilities { tool_choice_required: status, ..self@.1 }),
    {
        ModelCapabilityProfile { capabilities: CatalogCapabilities { tool_choice_required: status, ..self.capabilities }, ..self }
    }

    /// Sets specific tool-choice support.
    pub fn with_tool_choice_specific(self, status: CapabilityStatus) -> (r: Self)
        ensures
            r@ == (self@.0, CatalogCapabilities { tool_choice_specific: status, ..self@.1 }),
    {
        ModelCapabilityProfile { capabilities: CatalogCapabilities { tool_choice_specific: status, ..self.capabilities }, ..self }
    }

    /// Sets parallel tool-call support.
    pub fn with_parallel_tool_calls(self, status: CapabilityStatus) -> (r: Self)
        ensures
            r@ == (self@.0, CatalogCapabilities { parallel_tool_calls: status, ..self@.1 }),
    {
        ModelCapabilityProfile { capabilities: CatalogCapabilities { parallel_tool_calls: status, ..self.capabilities }, ..self }
    }

    /// Sets strict function-schema support.
    pub fn with_strict_tools(self, status: CapabilityStatus) -> (r: Self)
        ensures
            r@ == (self@.0, CatalogCapabilities { strict_tools: status, ..self@.1 }),
    {
        ModelCapabilityProfile { capabilities: CatalogCapabilities { strict_tools: status, ..self.capabilities }, ..self }
    }

    /// Sets image input support.
    pub fn with_vision_input(self, status: CapabilityStatus) -> (r: Self)
        ensures
            r@ == (self@.0, CatalogCapabilities { vision_input: status, ..self@.1 }),
    {
        ModelCapabilityProfile { capabilities: CatalogCapabilities { vision_input: status, ..self.capabilities }, ..self }
    }

    /// Sets original image-detail support.
    pub fn with_image_detail_original(self, status: CapabilityStatus) -> (r: Self)
        ensures
            r@ == (self@.0, CatalogCapabilities { image_detail_original: status, ..self@.1 }),
    {
        ModelCapabilityProfile { capabilities: CatalogCapabilities { image_detail_original: status, ..self.capabilities }, ..self }
    }

    /// Sets JSON object response-format support.
    pub fn with_response_format_json_object(self, status: CapabilityStatus) -> (r: Self)
        ensures
            r@ == (self@.0, CatalogCapabilities { response_format_json_object: status, ..self@.1 }),
    {
        ModelCapabilityProfile { capabilities: CatalogCapabilities { response_format_json_object: status, ..self.capabilities }, ..self }
    }

    /// Sets JSON schema response-format support.
    pub fn with_response_format_json_schema(self, status: CapabilityStatus) -> (r: Self)
        ensures
            r@ == (self@.0, CatalogCapabilities { response_format_json_schema: status, ..self@.1 }),
    {
        ModelCapabilityProfile { capabilities: CatalogCapabilities { response_format_json_schema: status, ..self.capabilities }, ..self }
    }

    /// Sets the exact reasoning effort declaration.
    pub fn with_reasoning_efforts(self, support: ReasoningEffortSupport) -> (r: Self)
        ensures
            r@ == (self@.0, CatalogCapabilities { reasoning_efforts: support, ..self@.1 }),
    {
        ModelCapabilityProfile { capabilities: CatalogCapabilities { reasoning_efforts: support, ..self.capabilities }, ..self }
    }

    /// Sets adaptive-thinking request support.
    pub fn with_adaptive_thinking(self, status: CapabilityStatus) -> (r: Self)
        ensures
            r@ == (self@.0, CatalogCapabilities { adaptive_thinking: status, ..self@.1 }),
    {
        ModelCapabilityProfile { capabilities: CatalogCapabilities { adaptive_thinking: status, ..self.capabilities }, ..self }
    }

    /// Sets adaptive-thinking effort support.
    pub fn with_adaptive_thinking_effort(self, status: CapabilityStatus) -> (r: Self)
        ensures
            r@ == (self@.0, CatalogCapabilities { adaptive_thinking_effort: status, ..self@.1 }),
    {
        ModelCapabilityProfile { capabilities: CatalogCapabilities { adaptive_thinking_effort: status, ..self.capabilities }, ..self }
    }

    /// Returns function tool support.
    pub fn function_tools(&self) -> (r: CapabilityStatus)
        ensures
            r == self@.1.function_tools,
    {
        self.capabilities.function_tools
    }

    /// Returns required tool-choice support.
    pub fn tool_choice_required(&self) -> (r: CapabilityStatus)
        ensures
            r == self@.1.tool_choice_required,
    {
        self.capabilities.tool_choice_required
    }

    /// Returns specific tool-choice support.
    pub fn tool_choice_specific(&self) -> (r: CapabilityStatus)
        ensures
            r == self@.1.tool_choice_specific,
    {
        self.capabilities.tool_choice_specific
    }

    /// Returns parallel tool-call support.
    pub fn parallel_tool_calls(&self) -> (r: CapabilityStatus)
        ensures
            r == self@.1.parallel_tool_calls,
    {
        self.capabilities.parallel_tool_calls
    }

    /// Returns strict function-schema support.
    pub fn strict_tools(&self) -> (r: CapabilityStatus)
        ensures
            r == self@.1.strict_tools,
    {
        self.capabilities.strict_tools
    }

    /// Returns image input support.
    pub fn vision_input(&self) -> (r: CapabilityStatus)
        ensures
            r == self@.1.vision_input,
    {
        self.capabilities.vision_input
    }

    /// Returns original image-detail support.
    pub fn image_detail_original(&self) -> (r: CapabilityStatus)
        ensures
            r == self@.1.image_detail_original,
    {
        self.capabilities.image_detail_original
    }

    /// Returns JSON object response-format support.
    pub fn response_format_json_object(&self) -> (r: CapabilityStatus)
        ensures
            r == self@.1.response_format_json_object,
    {
        self.capabilities.response_format_json_object
    }

    /// Returns JSON schema response-format support.
    pub fn response_format_json_schema(&self) -> (r: CapabilityStatus)
        ensures
            r == self@.1.response_format_json_schema,
    {
        self.capabilities.response_format_json_schema
    }

    /// Returns the exact reasoning effort declaration.
    pub fn reasoning_efforts(&self) -> (r: ReasoningEffortSupport)
        ensures
            r == self@.1.reasoning_efforts,
    {
        self.capabilities.reasoning_efforts
    }
}

/// Protocol-specific response/request behavior selected by a profile.
#[derive(Clone, Copy, Debug, PartialEq, Eq, Structural)]
pub enum ProtocolDialect {
    /// Official `OpenAI` Chat Completions semantics.
    OpenAiChatCompletions,
    /// Official Anthropic Messages semantics.
    AnthropicMessages,
}

/// Transport safety options owned by a provider profile.
#[derive(Clone, Copy, Debug, PartialEq, Eq, Structural)]
pub struct ProviderTransportOptions {
    redirect_policy: RedirectPolicy,
}

impl ProviderTransportOptions {
    pub closed spec fn spec_redirect_policy(self) -> RedirectPolicy {
        self.redirect_policy
    }

    /// Creates transport options with redirects disabled.
    pub fn secure_defaults() -> (r: Self)
        ensures
            r.spec_redirect_policy() == RedirectPolicy::Disabled,
    {
        ProviderTransportOptions { redirect_policy: RedirectPolicy::Disabled }
    }

    /// Returns redirect policy.
    pub fn redirect_policy(self) -> (r: RedirectPolicy)
        ensures
            r == self.spec_redirect_policy(),
    {
        self.redirect_policy
    }
}

impl Default for ProviderTransportOptions {
    fn default() -> (r: Self)
        ensures
            r.spec_redirect_policy() == RedirectPolicy::Disabled,
    {
        Self::secure_defaults()
    }
}

} // verus!
