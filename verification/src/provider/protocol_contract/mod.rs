//! Fully resolved, protocol-specific behavior fixed when a definition is built.
//!
//! The parts of compatibility that decide correctness (which finish reasons are legal,
//! where usage counters live, whether an inline error is an error, what shape tool
//! arguments arrive in) belong to the protocol contract and are frozen at definition
//! build time rather than merged per request.

pub mod binding;
pub mod contract;
pub mod history;
pub mod profile;
pub mod request;
pub mod response;

pub use binding::ValidatedProtocolBinding;
pub use contract::{
    AnthropicBetaHeaderPolicy, AnthropicErrorEnvelopePolicy, AnthropicEventPolicy,
    AnthropicHistorySemantics, AnthropicMessagesContract, AnthropicTerminalPolicy,
    AnthropicThinkingPolicy, AnthropicToolBlockPolicy, AnthropicVersionHeaderPolicy,
    OpenAiChatContract, ResolvedProtocolContract,
};
pub use history::HistoryCompat;
pub use profile::{CompatField, CompatProfile};
pub use request::{MaxOutputTokensWireFormat, RequestCompat};
pub use response::{
    AnthropicUsageCompat, FinishReasonCompat, InlineErrorCompat, ResponseCompat,
    ToolArgumentsCompat, UsageCompat,
};
