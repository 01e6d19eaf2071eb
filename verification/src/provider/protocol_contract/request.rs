//! Typed request-side compatibility strategies.

use vstd::prelude::*;

use crate::domain::{
    ImageWireFormat, ModelBodyWireFormat, StreamUsagePolicy, StructuredOutputWireFormat,
    ThinkingWireFormat, ToolChoiceWireFormat,
};

verus! {

/// Wire field used for the provider-neutral maximum output token intent.
#[derive(Clone, Copy, Debug, PartialEq, Eq, Structural)]
pub enum MaxOutputTokensWireFormat {
    /// Modern `OpenAI` Chat Completions `max_completion_tokens`.
    MaxCompletionTokens,
    /// Legacy compatible-provider `max_tokens`.
    MaxTokens,
}

/// Complete request encoding strategy for one resolved target.
#[derive(Clone, Copy, Debug, PartialEq, Eq, Structural)]
pub struct RequestCompat {
    /// Whether the body carries the wire model.
    pub model_body: ModelBodyWireFormat,
    /// Maximum output token field.
    pub max_output_tokens: MaxOutputTokensWireFormat,
    /// Tool-choice encoding.
    pub tool_choice: ToolChoiceWireFormat,
    /// Thinking request encoding.
    pub thinking: ThinkingWireFormat,
    /// Image request encoding.
    pub image: ImageWireFormat,
    /// Streaming usage request behavior.
    pub stream_usage: StreamUsagePolicy,
    /// Structured-output request encoding.
    pub structured_output: StructuredOutputWireFormat,
}

/// Protocol defaults for the `OpenAI` Chat Completions driver.
pub open spec fn request_defaults() -> RequestCompat {
    RequestCompat {
        model_body: ModelBodyWireFormat::Include,
        max_output_tokens: MaxOutputTokensWireFormat::MaxCompletionTokens,
        tool_choice: ToolChoiceWireFormat::OpenAiNestedFunction,
        thinking: ThinkingWireFormat::OpenAiReasoningEffort,
        image: ImageWireFormat::OpenAiImageUrl,
        stream_usage: StreamUsagePolicy::IncludeUsage,
        structured_output: StructuredOutputWireFormat::OpenAiResponseFormat,
    }
}

impl RequestCompat {
    /// Protocol defaults for the `OpenAI` Chat Completions driver.
    pub fn openai_chat_default() -> (r: Self)
        ensures
            r == request_defaults(),
    {
        RequestCompat {
            model_body: ModelBodyWireFormat::Include,
            max_output_tokens: MaxOutputTokensWireFormat::MaxCompletionTokens,
            tool_choice: ToolChoiceWireFormat::OpenAiNestedFunction,
            thinking: ThinkingWireFormat::OpenAiReasoningEffort,
            image: ImageWireFormat::OpenAiImageUrl,
            stream_usage: StreamUsagePolicy::IncludeUsage,
            structured_output: StructuredOutputWireFormat::OpenAiResponseFormat,
        }
    }
}

impl Default for RequestCompat {
    fn default() -> (r: Self)
        ensures
            r == request_defaults(),
    {
        Self::openai_chat_default()
    }
}

} // verus!
