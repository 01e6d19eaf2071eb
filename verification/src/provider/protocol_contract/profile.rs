//! Resolved `OpenAI` Chat compatibility contract and field provenance.
//!
//! This is the *resolved* form: one immutable contract accepted when a provider
//! definition is built and carried unchanged into every request.

use vstd::prelude::*;

use crate::domain::{CapabilityStatus, DialectPolicy, ModelBodyWireFormat, PolicySource, StreamUsagePolicy};
use crate::error::{configuration, is_configuration, LlmError};
use crate::provider::capability::ProviderCapabilities;

use super::history::{history_defaults, HistoryCompat};
use super::request::{request_defaults, MaxOutputTokensWireFormat, RequestCompat};
use super::response::{
    response_defaults, FinishReasonCompat, ResponseCompat, ToolArgumentsCompat, UsageCompat,
};

verus! {

/// Stable names for compatibility leaves.
#[derive(Clone, Copy, Debug, PartialEq, Eq, Structural, PartialOrd, Ord)]
pub enum CompatField {
    /// Request model field presence.
    RequestModelBody,
    /// Maximum output token request field.
    RequestMaxOutputTokens,
    /// Request tool choice.
    RequestToolChoice,
    /// Request thinking.
    RequestThinking,
    /// Request image.
    RequestImage,
    /// Request stream usage.
    RequestStreamUsage,
    /// Request structured output.
    RequestStructuredOutput,
    /// Response finish reason.
    ResponseFinishReason,
    /// Response tool arguments.
    ResponseToolArguments,
    /// Response usage.
    ResponseUsage,
    /// Response inline error.
    ResponseInlineError,
    /// History missing tool result.
    HistoryMissingToolResult,
    /// History unsupported content.
    HistoryUnsupportedContent,
    /// History thinking replay.
    HistoryThinkingReplay,
    /// History tool-result name.
    HistoryToolResultName,
    /// History tool-call id.
    HistoryToolCallId,
}

impl CompatField {
    /// Every stable compatibility leaf in deterministic order.
    pub open spec fn all_spec() -> Seq<CompatField> {
        seq![CompatField::RequestModelBody, CompatField::RequestMaxOutputTokens, CompatField::RequestToolChoice, CompatField::RequestThinking, CompatField::RequestImage, CompatField::RequestStreamUsage, CompatField::RequestStructuredOutput, CompatField::ResponseFinishReason, CompatField::ResponseToolArguments, CompatField::ResponseUsage, CompatField::ResponseInlineError, CompatField::HistoryMissingToolResult, CompatField::HistoryUnsupportedContent, CompatField::HistoryThinkingReplay, CompatField::HistoryToolResultName, CompatField::HistoryToolCallId]
    }

    /// Returns every stable compatibility leaf in deterministic order.
    pub fn all() -> (r: [CompatField; 16])
        ensures
            r@ == Self::all_spec(),
    {
        [CompatField::RequestModelBody, CompatField::RequestMaxOutputTokens, CompatField::RequestToolChoice, CompatField::RequestThinking, CompatField::RequestImage, CompatField::RequestStreamUsage, CompatField::RequestStructuredOutput, CompatField::ResponseFinishReason, CompatField::ResponseToolArguments, CompatField::ResponseUsage, CompatField::ResponseInlineError, CompatField::HistoryMissingToolResult, CompatField::HistoryUnsupportedContent, CompatField::HistoryThinkingReplay, CompatField::HistoryToolResultName, CompatField::HistoryToolCallId]
    }
}

/// Declaration layer of every compatibility leaf.
#[derive(Clone, Copy, Debug, PartialEq, Eq, Structural)]
struct CompatProvenance {
    request_model_body: PolicySource,
    request_max_output_tokens: PolicySource,
    request_tool_choice: PolicySource,
    request_thinking: PolicySource,
    request_image: PolicySource,
    request_stream_usage: PolicySource,
    request_structured_output: PolicySource,
    response_finish_reason: PolicySource,
    response_tool_arguments: PolicySource,
    response_usage: PolicySource,
    response_inline_error: PolicySource,
    history_missing_tool_result: PolicySource,
    history_unsupported_content: PolicySource,
    history_thinking_replay: PolicySource,
    history_tool_result_name: PolicySource,
    history_tool_call_id: PolicySource,
}

spec fn provenance_get(p: CompatProvenance, f: CompatField) -> PolicySource {
    match f {
        CompatField::RequestModelBody => p.request_model_body,
        CompatField::RequestMaxOutputTokens => p.request_max_output_tokens,
        CompatField::RequestToolChoice => p.request_tool_choice,
        CompatField::RequestThinking => p.request_thinking,
        CompatField::RequestImage => p.request_image,
        CompatField::RequestStreamUsage => p.request_stream_usage,
        CompatField::RequestStructuredOutput => p.request_structured_output,
        CompatField::ResponseFinishReason => p.response_finish_reason,
        CompatField::ResponseToolArguments => p.response_tool_arguments,
        CompatField::ResponseUsage => p.response_usage,
        CompatField::ResponseInlineError => p.response_inline_error,
        CompatField::HistoryMissingToolResult => p.history_missing_tool_result,
        CompatField::HistoryUnsupportedContent => p.history_unsupported_content,
        CompatField::HistoryThinkingReplay => p.history_thinking_replay,
        CompatField::HistoryToolResultName => p.history_tool_result_name,
        CompatField::HistoryToolCallId => p.history_tool_call_id,
    }
}

impl CompatProvenance {
    fn uniform(source: PolicySource) -> (r: Self)
        ensures
            forall|f: CompatField| provenance_get(r, f) == source,
    {
        CompatProvenance {
            request_model_body: source,
            request_max_output_tokens: source,
            request_tool_choice: source,
            request_thinking: source,
            request_image: source,
            request_stream_usage: source,
            request_structured_output: source,
            response_finish_reason: source,
            response_tool_arguments: source,
            response_usage: source,
            response_inline_error: source,
            history_missing_tool_result: source,
            history_unsupported_content: source,
            history_thinking_replay: source,
            history_tool_result_name: source,
            history_tool_call_id: source,
        }
    }

    fn get(&self, f: CompatField) -> (r: PolicySource)
        ensures
            r == provenance_get(*self, f),
    {
        match f {
            CompatField::RequestModelBody => self.request_model_body,
            CompatField::RequestMaxOutputTokens => self.request_max_output_tokens,
            CompatField::RequestToolChoice => self.request_tool_choice,
            CompatField::RequestThinking => self.request_thinking,
            CompatField::RequestImage => self.request_image,
            CompatField::RequestStreamUsage => self.request_stream_usage,
            CompatField::RequestStructuredOutput => self.request_structured_output,
            CompatField::ResponseFinishReason => self.response_finish_reason,
            CompatField::ResponseToolArguments => self.response_tool_arguments,
            CompatField::ResponseUsage => self.response_usage,
            CompatField::ResponseInlineError => self.response_inline_error,
            CompatField::HistoryMissingToolResult => self.history_missing_tool_result,
            CompatField::HistoryUnsupportedContent => self.history_unsupported_content,
            CompatField::HistoryThinkingReplay => self.history_thinking_replay,
            CompatField::HistoryToolResultName => self.history_tool_result_name,
            CompatField::HistoryToolCallId => self.history_tool_call_id,
        }
    }

    fn set(&mut self, f: CompatField, source: PolicySource)
        ensures
            forall|g: CompatField|
                provenance_get(*final(self), g) == if g == f {
                    source
                } else {
                    provenance_get(*old(self), g)
                },
    {
        match f {
            CompatField::RequestModelBody => self.request_model_body = source,
            CompatField::RequestMaxOutputTokens => self.request_max_output_tokens = source,
            CompatField::RequestToolChoice => self.request_tool_choice = source,
            CompatField::RequestThinking => self.request_thinking = source,
            CompatField::RequestImage => self.request_image = source,
            CompatField::RequestStreamUsage => self.request_stream_usage = source,
            CompatField::RequestStructuredOutput => self.request_structured_output = source,
            CompatField::ResponseFinishReason => self.response_finish_reason = source,
            CompatField::ResponseToolArguments => self.response_tool_arguments = source,
            CompatField::ResponseUsage => self.response_usage = source,
            CompatField::ResponseInlineError => self.response_inline_error = source,
            CompatField::HistoryMissingToolResult => self.history_missing_tool_result = source,
            CompatField::HistoryUnsupportedContent => self.history_unsupported_content = source,
            CompatField::HistoryThinkingReplay => self.history_thinking_replay = source,
            CompatField::HistoryToolResultName => self.history_tool_result_name = source,
            CompatField::HistoryToolCallId => self.history_tool_call_id = source,
        }
    }
}

/// Complete, immutable compatibility policy compiled before request encoding.
#[derive(Clone, Copy, Debug, PartialEq, Eq, Structural)]
pub struct CompatProfile {
    request: RequestCompat,
    response: ResponseCompat,
    history: HistoryCompat,
    provenance: CompatProvenance,
}

impl CompatProfile {
    pub closed spec fn spec_request(self) -> RequestCompat {
        self.request
    }

    pub closed spec fn spec_response(self) -> ResponseCompat {
        self.response
    }

    pub closed spec fn spec_history(self) -> HistoryCompat {
        self.history
    }

    /// The declaration layer responsible for one resolved leaf.
    pub closed spec fn spec_source(self, field: CompatField) -> PolicySource {
        provenance_get(self.provenance, field)
    }

    /// Creates the `OpenAI` Chat protocol-default profile.
    pub fn openai_chat_default() -> (r: Self)
        ensures
            r.spec_request() == request_defaults(),
            r.spec_response() == response_defaults(),
            r.spec_history() == history_defaults(),
            forall|f: CompatField| r.spec_source(f) == PolicySource::ProtocolDefault,
    {
        CompatProfile {
            request: RequestCompat::openai_chat_default(),
            response: ResponseCompat::openai_chat_default(),
            history: HistoryCompat::openai_chat_default(),
            provenance: CompatProvenance::uniform(PolicySource::ProtocolDefault),
        }
    }

    /// Returns request strategies.
    pub fn request(&self) -> (r: &RequestCompat)
        ensures
            *r == self.spec_request(),
    {
        &self.request
    }

    /// Returns response strategies.
    pub fn response(&self) -> (r: &ResponseCompat)
        ensures
            *r == self.spec_response(),
    {
        &self.response
    }

    /// Returns history strategies.
    pub fn history(&self) -> (r: &HistoryCompat)
        ensures
            *r == self.spec_history(),
    {
        &self.history
    }

    /// Returns the source of one resolved leaf.
    pub fn source(&self, field: CompatField) -> (r: PolicySource)
        ensures
            r == self.spec_source(field),
    {
        self.provenance.get(field)
    }

    /// Reconstructs the dialect view used by domain history normalization.
    pub fn dialect_policy(&self) -> (r: DialectPolicy)
        ensures
            r == (DialectPolicy {
                source: PolicySource::ProtocolDefault,
                tool_choice: self.spec_request().tool_choice,
                tool_result_name: self.spec_history().tool_result_name,
                tool_call_id: self.spec_history().tool_call_id,
                thinking: self.spec_request().thinking,
                image: self.spec_request().image,
                stream_usage: self.spec_request().stream_usage,
                structured_output: self.spec_request().structured_output,
            }),
    {
        DialectPolicy {
            source: PolicySource::ProtocolDefault,
            tool_choice: self.request.tool_choice,
            tool_result_name: self.history.tool_result_name,
            tool_call_id: self.history.tool_call_id,
            thinking: self.request.thinking,
            image: self.request.image,
            stream_usage: self.request.stream_usage,
            structured_output: self.request.structured_output,
        }
    }

    /// Returns mutable access to the resolved strategies.
    ///
    /// A layered resolver writes the winning leaf through this seam and then records
    /// where it came from with [`Self::record_source`]; provenance is left untouched here.
    pub fn parts_mut(&mut self) -> (r: (&mut RequestCompat, &mut ResponseCompat, &mut HistoryCompat))
        ensures
            *r.0 == old(self).spec_request(),
            *r.1 == old(self).spec_response(),
            *r.2 == old(self).spec_history(),
            final(self).spec_request() == *final(r.0),
            final(self).spec_response() == *final(r.1),
            final(self).spec_history() == *final(r.2),
            forall|f: CompatField| final(self).spec_source(f) == old(self).spec_source(f),
    {
        (&mut self.request, &mut self.response, &mut self.history)
    }

    /// Records the declaration layer responsible for one resolved leaf.
    pub fn record_source(&mut self, field: CompatField, source: PolicySource)
        ensures
            final(self).spec_request() == old(self).spec_request(),
            final(self).spec_response() == old(self).spec_response(),
            final(self).spec_history() == old(self).spec_history(),
            forall|f: CompatField|
                final(self).spec_source(f) == if f == field {
                    source
                } else {
                    old(self).spec_source(f)
                },
    {
        self.provenance.set(field, source);
    }

    /// Sets whether the request body carries the resolved wire model.
    pub fn with_model_body(self, value: ModelBodyWireFormat, source: PolicySource) -> (r: Self)
        ensures
            r.spec_request() == (RequestCompat { model_body: value, ..self.spec_request() }),
            r.spec_response() == self.spec_response(),
            r.spec_history() == self.spec_history(),
            forall|f: CompatField|
                r.spec_source(f) == if f == CompatField::RequestModelBody {
                    source
                } else {
                    self.spec_source(f)
                },
    {
        let mut next = self;
        next.request.model_body = value;
        next.record_source(CompatField::RequestModelBody, source);
        next
    }

    /// Sets the maximum output token wire format.
    pub fn with_max_output_tokens(self, value: MaxOutputTokensWireFormat, source: PolicySource) -> (r: Self)
        ensures
            r.spec_request() == (RequestCompat { max_output_tokens: value, ..self.spec_request() }),
            r.spec_response() == self.spec_response(),
            r.spec_history() == self.spec_history(),
            forall|f: CompatField|
                r.spec_source(f) == if f == CompatField::RequestMaxOutputTokens {
                    source
                } else {
                    self.spec_source(f)
                },
    {
        let mut next = self;
        next.request.max_output_tokens = value;
        next.record_source(CompatField::RequestMaxOutputTokens, source);
        next
    }

    /// Sets streamed finish-reason handling.
    pub fn with_finish_reason(self, value: FinishReasonCompat, source: PolicySource) -> (r: Self)
        ensures
            r.spec_request() == self.spec_request(),
            r.spec_response() == (ResponseCompat { finish_reason: value, ..self.spec_response() }),
            r.spec_history() == self.spec_history(),
            forall|f: CompatField|
                r.spec_source(f) == if f == CompatField::ResponseFinishReason {
                    source
                } else {
                    self.spec_source(f)
                },
    {
        let mut next = self;
        next.response.finish_reason = value;
        next.record_source(CompatField::ResponseFinishReason, source);
        next
    }

    /// Sets streamed tool-argument handling.
    pub fn with_tool_arguments(self, value: ToolArgumentsCompat, source: PolicySource) -> (r: Self)
        ensures
            r.spec_request() == self.spec_request(),
            r.spec_response() == (ResponseCompat { tool_arguments: value, ..self.spec_response() }),
            r.spec_history() == self.spec_history(),
            forall|f: CompatField|
                r.spec_source(f) == if f == CompatField::ResponseToolArguments {
                    source
                } else {
                    self.spec_source(f)
                },
    {
        let mut next = self;
        next.response.tool_arguments = value;
        next.record_source(CompatField::ResponseToolArguments, source);
        next
    }

    /// Sets streamed usage handling.
    pub fn with_usage(self, value: UsageCompat, source: PolicySource) -> (r: Self)
        ensures
            r.spec_request() == self.spec_request(),
            r.spec_response() == (ResponseCompat { usage: value, ..self.spec_response() }),
            r.spec_history() == self.spec_history(),
            forall|f: CompatField|
                r.spec_source(f) == if f == CompatField::ResponseUsage {
                    source
                } else {
                    self.spec_source(f)
                },
    {
        let mut next = self;
        next.response.usage = value;
        next.record_source(CompatField::ResponseUsage, source);
        next
    }

    /// Rejects a contract that contradicts the capabilities it will run under: requesting
    /// stream usage needs explicit streaming-usage support, and accepting object-shaped
    /// tool arguments needs explicit function-tool support.
    pub fn validate_against(&self, capabilities: &ProviderCapabilities) -> (r: Result<(), LlmError>)
        ensures
            compat_conflict(*self, *capabilities) matches Some(message) ==> (r matches Err(e)
                && is_configuration(e, message)),
            compat_conflict(*self, *capabilities) is None ==> r is Ok,
    {
        if self.request.stream_usage == StreamUsagePolicy::IncludeUsage
            && capabilities.streaming_usage != CapabilityStatus::Supported {
            return Err(
                configuration(
                    "stream usage compatibility requires explicit streaming usage support",
                ),
            );
        }
        if self.response.tool_arguments == ToolArgumentsCompat::StringOrObject
            && capabilities.function_tools != CapabilityStatus::Supported {
            return Err(
                configuration("tool argument compatibility requires explicit function tool support"),
            );
        }
        Ok(())
    }
}

/// The first contradiction between a compatibility contract and capabilities, if any.
pub open spec fn compat_conflict(compat: CompatProfile, capabilities: ProviderCapabilities) -> Option<Seq<char>> {
    if compat.spec_request().stream_usage == StreamUsagePolicy::IncludeUsage
        && capabilities.streaming_usage != CapabilityStatus::Supported {
        Some("stream usage compatibility requires explicit streaming usage support"@)
    } else if compat.spec_response().tool_arguments == ToolArgumentsCompat::StringOrObject
        && capabilities.function_tools != CapabilityStatus::Supported {
        Some("tool argument compatibility requires explicit function tool support"@)
    } else {
        None
    }
}

} // verus!
