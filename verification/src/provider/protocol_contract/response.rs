//! Typed response-side compatibility strategies.

use vstd::prelude::*;

verus! {

/// Accepted finish-reason vocabulary.
#[derive(Clone, Copy, Debug, PartialEq, Eq, Structural)]
pub enum FinishReasonCompat {
    /// Fail closed on values outside the `OpenAI` Chat vocabulary.
    StrictOpenAi,
}

/// Accepted streamed tool-argument representation.
#[derive(Clone, Copy, Debug, PartialEq, Eq, Structural)]
pub enum ToolArgumentsCompat {
    /// Require JSON arguments to arrive as a string accumulator.
    JsonString,
    /// Accept a string or object and normalize privately in the adapter.
    StringOrObject,
}

/// Usage object interpretation.
#[derive(Clone, Copy, Debug, PartialEq, Eq, Structural)]
pub enum UsageCompat {
    /// `OpenAI` prompt/completion/total token semantics.
    OpenAi,
}

/// Anthropic Messages usage interpretation.
#[derive(Clone, Copy, Debug, PartialEq, Eq, Structural)]
pub enum AnthropicUsageCompat {
    /// Require the stable official usage fields.
    StrictStableFields,
}

/// In-stream provider error handling.
#[derive(Clone, Copy, Debug, PartialEq, Eq, Structural)]
pub enum InlineErrorCompat {
    /// Treat an error object as a terminal protocol failure.
    Reject,
}

/// Complete response decoding strategy for one resolved target.
#[derive(Clone, Copy, Debug, PartialEq, Eq, Structural)]
pub struct ResponseCompat {
    /// Finish-reason handling.
    pub finish_reason: FinishReasonCompat,
    /// Tool argument handling.
    pub tool_arguments: ToolArgumentsCompat,
    /// Usage handling.
    pub usage: UsageCompat,
    /// Inline error handling.
    pub inline_error: InlineErrorCompat,
}

/// Protocol defaults for the `OpenAI` Chat Completions state machine.
pub open spec fn response_defaults() -> ResponseCompat {
    ResponseCompat {
        finish_reason: FinishReasonCompat::StrictOpenAi,
        tool_arguments: ToolArgumentsCompat::JsonString,
        usage: UsageCompat::OpenAi,
        inline_error: InlineErrorCompat::Reject,
    }
}

impl ResponseCompat {
    /// Protocol defaults for the `OpenAI` Chat Completions state machine.
    pub fn openai_chat_default() -> (r: Self)
        ensures
            r == response_defaults(),
    {
        ResponseCompat {
            finish_reason: FinishReasonCompat::StrictOpenAi,
            tool_arguments: ToolArgumentsCompat::JsonString,
            usage: UsageCompat::OpenAi,
            inline_error: InlineErrorCompat::Reject,
        }
    }
}

impl Default for ResponseCompat {
    fn default() -> (r: Self)
        ensures
            r == response_defaults(),
    {
        Self::openai_chat_default()
    }
}

} // verus!
