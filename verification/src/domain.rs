//! Provider-neutral identifiers, capability states and policy vocabularies.

use vstd::prelude::*;
use vstd::std_specs::cmp::PartialEqSpecImpl;
use vstd::std_specs::convert::FromSpecImpl;

use crate::error::{ValidationError, ValidationReason};
use crate::text::{byte_len_exceeds_256, boundary_whitespace, has_boundary_whitespace, utf8_len};

verus! {

/// Why an identifier is rejected, as a reason and fixed summary, or `None` when it is valid.
///
/// Identifiers must be non-empty, have no boundary white space and fit in 256 UTF-8 bytes.
pub open spec fn identifier_rejection(value: Seq<char>) -> Option<(ValidationReason, Seq<char>)> {
    if value.len() == 0 {
        Some((ValidationReason::Empty, "identifier must not be empty"@))
    } else if has_boundary_whitespace(value) {
        Some((ValidationReason::BoundaryWhitespace, "identifier must not have boundary whitespace"@))
    } else if utf8_len(value) > 256 {
        Some((ValidationReason::OutOfRange, "identifier exceeds 256 bytes"@))
    } else {
        None
    }
}

/// The outcome of validating an identifier for the field `label`.
pub open spec fn identifier_result_ok<T>(
    label: Seq<char>,
    value: Seq<char>,
    r: Result<T, ValidationError>,
) -> bool {
    match identifier_rejection(value) {
        None => r is Ok,
        Some((reason, summary)) => match r {
            Err(e) => e.spec_field() == label && e.spec_reason() == reason && e.spec_summary()
                == summary,
            Ok(_) => false,
        },
    }
}

/// Checks the shared identifier rules for the field `label`.
pub fn check_identifier(label: &str, value: &str) -> (r: Result<(), ValidationError>)
    ensures
        identifier_result_ok(label@, value@, r),
{
    if value.unicode_len() == 0 {
        return Err(
            ValidationError::new(label, ValidationReason::Empty, "identifier must not be empty"),
        );
    }
    if boundary_whitespace(value) {
        return Err(
            ValidationError::new(
                label,
                ValidationReason::BoundaryWhitespace,
                "identifier must not have boundary whitespace",
            ),
        );
    }
    if byte_len_exceeds_256(value) {
        return Err(
            ValidationError::new(label, ValidationReason::OutOfRange, "identifier exceeds 256 bytes"),
        );
    }
    Ok(())
}

/// Stable provider identifier.
#[derive(Debug, Eq)]
pub struct ProviderId(String);

impl View for ProviderId {
    type V = Seq<char>;

    closed spec fn view(&self) -> Seq<char> {
        self.0@
    }
}

impl Clone for ProviderId {
    fn clone(&self) -> (r: Self)
        ensures
            r == *self,
    {
        ProviderId(self.0.clone())
    }
}

impl PartialEq for ProviderId {
    fn eq(&self, other: &Self) -> (r: bool) {
        self.0 == other.0
    }
}

impl PartialEqSpecImpl for ProviderId {
    open spec fn obeys_eq_spec() -> bool {
        true
    }

    open spec fn eq_spec(&self, other: &Self) -> bool {
        self@ == other@
    }
}

impl ProviderId {
    /// Creates a non-empty, boundary-trimmed identifier of at most 256 bytes.
    pub fn new(value: &str) -> (r: Result<Self, ValidationError>)
        ensures
            identifier_result_ok("provider_id"@, value@, r),
            r matches Ok(id) ==> id@ == value@,
    {
        check_identifier("provider_id", value)?;
        Ok(ProviderId(value.to_owned()))
    }

    /// Returns the identifier text.
    pub fn as_str(&self) -> (r: &str)
        ensures
            r@ == self@,
    {
        self.0.as_str()
    }
}

/// Stable wire-protocol identifier.
#[derive(Debug, Eq)]
pub struct ProtocolId(String);

impl View for ProtocolId {
    type V = Seq<char>;

    closed spec fn view(&self) -> Seq<char> {
        self.0@
    }
}

impl Clone for ProtocolId {
    fn clone(&self) -> (r: Self)
        ensures
            r == *self,
    {
        ProtocolId(self.0.clone())
    }
}

impl PartialEq for ProtocolId {
    fn eq(&self, other: &Self) -> (r: bool) {
        self.0 == other.0
    }
}

impl PartialEqSpecImpl for ProtocolId {
    open spec fn obeys_eq_spec() -> bool {
        true
    }

    open spec fn eq_spec(&self, other: &Self) -> bool {
        self@ == other@
    }
}

impl ProtocolId {
    /// Creates a non-empty, boundary-trimmed identifier of at most 256 bytes.
    pub fn new(value: &str) -> (r: Result<Self, ValidationError>)
        ensures
            identifier_result_ok("protocol_id"@, value@, r),
            r matches Ok(id) ==> id@ == value@,
    {
        check_identifier("protocol_id", value)?;
        Ok(ProtocolId(value.to_owned()))
    }

    /// Returns the identifier text.
    pub fn as_str(&self) -> (r: &str)
        ensures
            r@ == self@,
    {
        self.0.as_str()
    }
}

/// Application-facing exact model identifier.
#[derive(Debug, Eq)]
pub struct ModelId(String);

impl View for ModelId {
    type V = Seq<char>;

    closed spec fn view(&self) -> Seq<char> {
        self.0@
    }
}

impl Clone for ModelId {
    fn clone(&self) -> (r: Self)
        ensures
            r == *self,
    {
        proof {
            use_type_invariant(self);
        }
        ModelId(self.0.clone())
    }
}

impl PartialEq for ModelId {
    fn eq(&self, other: &Self) -> (r: bool) {
        self.0 == other.0
    }
}

impl PartialEqSpecImpl for ModelId {
    open spec fn obeys_eq_spec() -> bool {
        true
    }

    open spec fn eq_spec(&self, other: &Self) -> bool {
        self@ == other@
    }
}

impl ModelId {
    #[verifier::type_invariant]
    spec fn well_formed(self) -> bool {
        identifier_rejection(self.0@) is None
    }

    /// Creates a non-empty, boundary-trimmed identifier of at most 256 bytes.
    pub fn new(value: &str) -> (r: Result<Self, ValidationError>)
        ensures
            identifier_result_ok("model_id"@, value@, r),
            r matches Ok(id) ==> id@ == value@,
    {
        check_identifier("model_id", value)?;
        Ok(ModelId(value.to_owned()))
    }

    /// Returns the identifier text, which satisfies the identifier rules.
    pub fn as_str(&self) -> (r: &str)
        ensures
            r@ == self@,
            identifier_rejection(r@) is None,
    {
        proof {
            use_type_invariant(self);
        }
        self.0.as_str()
    }
}

/// Three-state support declaration; unknown support fails closed.
#[derive(Clone, Copy, Debug, PartialEq, Eq, Structural)]
pub enum CapabilityStatus {
    /// Explicitly supported.
    Supported,
    /// Explicitly unsupported.
    Unsupported,
    /// Not established.
    Unknown,
}

/// Reasoning-effort support declared for one exact model.
#[derive(Clone, Copy, Debug, PartialEq, Eq, Structural)]
pub enum ReasoningEffortSupport {
    /// Not established.
    Unknown,
    /// Reasoning effort is not accepted.
    Unsupported,
    /// The listed efforts are accepted.
    Supported {
        /// `minimal` effort.
        minimal: bool,
        /// `low` effort.
        low: bool,
        /// `medium` effort.
        medium: bool,
        /// `high` effort.
        high: bool,
    },
}

/// Declaration layer that supplied a resolved policy leaf.
#[derive(Clone, Copy, Debug, PartialEq, Eq, Structural)]
pub enum PolicySource {
    /// Protocol default.
    ProtocolDefault,
    /// Provider profile declaration.
    ProviderProfile,
    /// Exact model profile declaration.
    ModelProfile,
    /// Request-scoped declaration.
    Request,
}

/// Dispatch kind derived from a validated protocol binding.
#[derive(Clone, Copy, Debug, PartialEq, Eq, Structural)]
pub enum ProtocolKind {
    /// `OpenAI` Chat Completions.
    OpenAiChatCompletions,
    /// Anthropic Messages.
    AnthropicMessages,
}

/// Whether the request body carries the resolved wire model.
#[derive(Clone, Copy, Debug, PartialEq, Eq, Structural)]
pub enum ModelBodyWireFormat {
    /// The body carries the wire model value.
    Include,
    /// The model is selected by the endpoint and omitted from the body.
    Omit,
}

/// Tool-choice request encoding.
#[derive(Clone, Copy, Debug, PartialEq, Eq, Structural)]
pub enum ToolChoiceWireFormat {
    /// `{"type": "function", "function": {"name": ...}}`.
    OpenAiNestedFunction,
}

/// Thinking request encoding.
#[derive(Clone, Copy, Debug, PartialEq, Eq, Structural)]
pub enum ThinkingWireFormat {
    /// `reasoning_effort`.
    OpenAiReasoningEffort,
}

/// Image request encoding.
#[derive(Clone, Copy, Debug, PartialEq, Eq, Structural)]
pub enum ImageWireFormat {
    /// `image_url` content parts.
    OpenAiImageUrl,
}

/// Streaming usage request behavior.
#[derive(Clone, Copy, Debug, PartialEq, Eq, Structural)]
pub enum StreamUsagePolicy {
    /// Request a final usage chunk.
    IncludeUsage,
    /// Do not request streaming usage.
    Omit,
}

/// Structured-output request encoding.
#[derive(Clone, Copy, Debug, PartialEq, Eq, Structural)]
pub enum StructuredOutputWireFormat {
    /// `response_format`.
    OpenAiResponseFormat,
}

/// Tool-result name encoding in history.
#[derive(Clone, Copy, Debug, PartialEq, Eq, Structural)]
pub enum ToolResultNamePolicy {
    /// Omit the tool name from tool-result messages.
    Omit,
}

/// Tool-call identifier normalization.
#[derive(Clone, Copy, Debug, PartialEq, Eq, Structural)]
pub enum ToolCallIdPolicy {
    /// Keep `OpenAI` tool-call identifiers unchanged.
    OpenAi,
}

/// Missing tool-result behavior.
#[derive(Clone, Copy, Debug, PartialEq, Eq, Structural)]
pub enum MissingToolResultPolicy {
    /// Reject history with a tool call that has no result.
    Reject,
}

/// Unsupported history content behavior.
#[derive(Clone, Copy, Debug, PartialEq, Eq, Structural)]
pub enum UnsupportedContentPolicy {
    /// Reject unsupported content.
    Reject,
}

/// Thinking replay behavior.
#[derive(Clone, Copy, Debug, PartialEq, Eq, Structural)]
pub enum ThinkingReplayPolicy {
    /// Drop every thinking block before replay.
    DropAll,
    /// Replay opaque thinking only to the source that produced it.
    SameSourceOnly,
}

/// Dialect view used by history normalization.
#[derive(Clone, Copy, Debug, PartialEq, Eq, Structural)]
pub struct DialectPolicy {
    /// Declaration source.
    pub source: PolicySource,
    /// Tool-choice encoding.
    pub tool_choice: ToolChoiceWireFormat,
    /// Tool-result name encoding.
    pub tool_result_name: ToolResultNamePolicy,
    /// Tool-call identifier normalization.
    pub tool_call_id: ToolCallIdPolicy,
    /// Thinking encoding.
    pub thinking: ThinkingWireFormat,
    /// Image encoding.
    pub image: ImageWireFormat,
    /// Streaming usage behavior.
    pub stream_usage: StreamUsagePolicy,
    /// Structured-output encoding.
    pub structured_output: StructuredOutputWireFormat,
}

/// History normalization policy.
#[derive(Clone, Copy, Debug, PartialEq, Eq, Structural)]
pub struct HistoryPolicy {
    /// Missing tool-result behavior.
    pub missing_tool_result: MissingToolResultPolicy,
    /// Unsupported content behavior.
    pub unsupported_content: UnsupportedContentPolicy,
    /// Thinking replay behavior.
    pub thinking_replay: ThinkingReplayPolicy,
}

/// Capability subset used by request validation.
#[derive(Clone, Copy, Debug, PartialEq, Eq, Structural)]
pub struct CapabilitySet {
    /// Temperature option.
    pub temperature: CapabilityStatus,
    /// Maximum output tokens option.
    pub max_output_tokens: CapabilityStatus,
    /// Function tools.
    pub function_tools: CapabilityStatus,
    /// Required tool choice.
    pub tool_choice_required: CapabilityStatus,
    /// Specific tool choice.
    pub tool_choice_specific: CapabilityStatus,
    /// Parallel tool calls.
    pub parallel_tool_calls: CapabilityStatus,
    /// Strict tools.
    pub strict_tools: CapabilityStatus,
    /// Vision input.
    pub vision_input: CapabilityStatus,
    /// Original image detail.
    pub image_detail_original: CapabilityStatus,
    /// JSON object output.
    pub response_format_json_object: CapabilityStatus,
    /// JSON schema output.
    pub response_format_json_schema: CapabilityStatus,
    /// Reasoning efforts.
    pub reasoning_efforts: ReasoningEffortSupport,
}

/// Transport and resource ceilings applied to one call.
#[derive(Clone, Copy, Debug, PartialEq, Eq, Structural)]
pub struct ResourceLimits {
    /// Maximum history messages.
    pub max_messages: usize,
    /// Maximum tool definitions.
    pub max_tools: usize,
    /// Maximum images.
    pub max_images: usize,
    /// Maximum schema bytes.
    pub max_schema_bytes: usize,
}

/// Explicit local pricing for one model.
#[derive(Clone, Copy, Debug, PartialEq, Eq, Structural)]
pub struct PriceProfile {
    /// Price of one million input tokens, in micro-units of the currency.
    pub input_per_million_tokens: u64,
    /// Price of one million output tokens, in micro-units of the currency.
    pub output_per_million_tokens: u64,
}

/// Anthropic adaptive-thinking display.
#[derive(Clone, Copy, Debug, PartialEq, Eq, Structural)]
pub enum AnthropicThinkingDisplay {
    /// Thinking text is omitted from the response.
    Omitted,
    /// Thinking is summarized.
    Summarized,
}

/// Anthropic adaptive-thinking effort.
#[derive(Clone, Copy, Debug, PartialEq, Eq, Structural)]
pub enum AnthropicEffort {
    /// Low effort.
    Low,
    /// Medium effort.
    Medium,
    /// High effort.
    High,
}

/// Anthropic Messages protocol-scoped options.
#[derive(Clone, Copy, Debug, PartialEq, Eq, Structural)]
pub struct AnthropicMessagesOptions {
    adaptive_thinking: Option<AnthropicThinkingDisplay>,
    effort: Option<AnthropicEffort>,
}

impl AnthropicMessagesOptions {
    pub closed spec fn spec_adaptive_thinking(self) -> Option<AnthropicThinkingDisplay> {
        self.adaptive_thinking
    }

    pub closed spec fn spec_effort(self) -> Option<AnthropicEffort> {
        self.effort
    }

    /// Creates options with nothing requested.
    pub fn new() -> (r: Self)
        ensures
            r.spec_adaptive_thinking() is None,
            r.spec_effort() is None,
    {
        AnthropicMessagesOptions { adaptive_thinking: None, effort: None }
    }

    /// Requests adaptive thinking with the given display.
    pub fn with_adaptive_thinking(self, display: AnthropicThinkingDisplay) -> (r: Self)
        ensures
            r.spec_adaptive_thinking() == Some(display),
            r.spec_effort() == self.spec_effort(),
    {
        AnthropicMessagesOptions { adaptive_thinking: Some(display), ..self }
    }

    /// Requests an adaptive-thinking effort.
    pub fn with_effort(self, effort: AnthropicEffort) -> (r: Self)
        ensures
            r.spec_effort() == Some(effort),
            r.spec_adaptive_thinking() == self.spec_adaptive_thinking(),
    {
        AnthropicMessagesOptions { effort: Some(effort), ..self }
    }

    /// Returns the requested adaptive-thinking display.
    pub fn adaptive_thinking(&self) -> (r: Option<AnthropicThinkingDisplay>)
        ensures
            r == self.spec_adaptive_thinking(),
    {
        self.adaptive_thinking
    }

    /// Returns the requested effort.
    pub fn effort(&self) -> (r: Option<AnthropicEffort>)
        ensures
            r == self.spec_effort(),
    {
        self.effort
    }
}

/// `OpenAI` Chat protocol-scoped options.
#[derive(Clone, Copy, Debug, PartialEq, Eq, Structural)]
pub struct OpenAiChatOptions {}

impl OpenAiChatOptions {
    /// Creates empty options.
    pub fn new() -> (r: Self) {
        OpenAiChatOptions {  }
    }
}

/// Protocol-scoped request options.
#[derive(Clone, Copy, Debug, PartialEq, Eq, Structural)]
pub enum ProtocolOptions {
    /// `OpenAI` Chat options.
    OpenAiChat(OpenAiChatOptions),
    /// Anthropic Messages options.
    AnthropicMessages(AnthropicMessagesOptions),
}

impl From<AnthropicMessagesOptions> for ProtocolOptions {
    fn from(options: AnthropicMessagesOptions) -> (r: Self) {
        ProtocolOptions::AnthropicMessages(options)
    }
}

impl FromSpecImpl<AnthropicMessagesOptions> for ProtocolOptions {
    open spec fn obeys_from_spec() -> bool {
        true
    }

    open spec fn from_spec(v: AnthropicMessagesOptions) -> Self {
        ProtocolOptions::AnthropicMessages(v)
    }
}

impl From<OpenAiChatOptions> for ProtocolOptions {
    fn from(options: OpenAiChatOptions) -> (r: Self) {
        ProtocolOptions::OpenAiChat(options)
    }
}

impl FromSpecImpl<OpenAiChatOptions> for ProtocolOptions {
    open spec fn obeys_from_spec() -> bool {
        true
    }

    open spec fn from_spec(v: OpenAiChatOptions) -> Self {
        ProtocolOptions::OpenAiChat(v)
    }
}

}
