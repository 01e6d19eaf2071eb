//! Typed history compatibility strategies.

use vstd::prelude::*;

use crate::domain::{
    MissingToolResultPolicy, ThinkingReplayPolicy, ToolCallIdPolicy, ToolResultNamePolicy,
    UnsupportedContentPolicy,
};

verus! {

/// Complete history normalization strategy for one resolved target.
#[derive(Clone, Copy, Debug, PartialEq, Eq, Structural)]
pub struct HistoryCompat {
    /// Missing tool-result behavior.
    pub missing_tool_result: MissingToolResultPolicy,
    /// Unsupported content behavior.
    pub unsupported_content: UnsupportedContentPolicy,
    /// Thinking replay behavior.
    pub thinking_replay: ThinkingReplayPolicy,
    /// Tool-result name encoding.
    pub tool_result_name: ToolResultNamePolicy,
    /// Tool-call identifier normalization.
    pub tool_call_id: ToolCallIdPolicy,
}

/// Protocol defaults for `OpenAI` Chat history.
pub open spec fn history_defaults() -> HistoryCompat {
    HistoryCompat {
        missing_tool_result: MissingToolResultPolicy::Reject,
        unsupported_content: UnsupportedContentPolicy::Reject,
        thinking_replay: ThinkingReplayPolicy::DropAll,
        tool_result_name: ToolResultNamePolicy::Omit,
        tool_call_id: ToolCallIdPolicy::OpenAi,
    }
}

impl HistoryCompat {
    /// Protocol defaults for `OpenAI` Chat history.
    pub fn openai_chat_default() -> (r: Self)
        ensures
            r == history_defaults(),
    {
        HistoryCompat {
            missing_tool_result: MissingToolResultPolicy::Reject,
            unsupported_content: UnsupportedContentPolicy::Reject,
            thinking_replay: ThinkingReplayPolicy::DropAll,
            tool_result_name: ToolResultNamePolicy::Omit,
            tool_call_id: ToolCallIdPolicy::OpenAi,
        }
    }
}

} // verus!
