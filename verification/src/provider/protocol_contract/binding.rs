//! Atomic, validated protocol identity shared by provider construction stages.

use vstd::prelude::*;

use crate::domain::{identifier_rejection, ProtocolId, ProtocolKind};
use crate::error::{configuration, is_configuration, LlmError};
use crate::provider::capability::ProtocolDialect;
use crate::text::{concat, lemma_utf8_len_bound, owned, str_eq};

use super::contract::{contract_matches, ResolvedProtocolContract};

verus! {

/// The only admissible dispatch kind for a protocol id, dialect and contract, if the
/// three form a supported binding.
pub open spec fn binding_kind(
    id: Seq<char>,
    dialect: ProtocolDialect,
    contract: ResolvedProtocolContract,
) -> Option<ProtocolKind> {
    if id == "openai-chat-completions"@ && dialect == ProtocolDialect::OpenAiChatCompletions
        && contract is OpenAiChat {
        Some(ProtocolKind::OpenAiChatCompletions)
    } else if id == "anthropic-messages"@ && dialect == ProtocolDialect::AnthropicMessages
        && contract is AnthropicMessages {
        Some(ProtocolKind::AnthropicMessages)
    } else {
        None
    }
}

/// A complete protocol identity whose fields cannot drift independently.
#[derive(Clone)]
pub struct ValidatedProtocolBinding {
    id: ProtocolId,
    kind: ProtocolKind,
    dialect: ProtocolDialect,
    contract: ResolvedProtocolContract,
}

impl ValidatedProtocolBinding {
    pub closed spec fn spec_id(&self) -> Seq<char> {
        self.id@
    }

    pub closed spec fn spec_kind(&self) -> ProtocolKind {
        self.kind
    }

    pub closed spec fn spec_dialect(&self) -> ProtocolDialect {
        self.dialect
    }

    pub closed spec fn spec_contract(&self) -> ResolvedProtocolContract {
        self.contract
    }

    /// Every binding carries the kind derived from its id, dialect and contract.
    pub closed spec fn wf(&self) -> bool {
        binding_kind(self.id@, self.dialect, self.contract) == Some(self.kind)
    }

    /// Validates the complete tuple and derives the only admissible dispatch kind.
    pub fn new(id: ProtocolId, dialect: ProtocolDialect, contract: ResolvedProtocolContract) -> (r:
        Result<Self, LlmError>)
        ensures
            match binding_kind(id@, dialect, contract) {
                Some(kind) => r matches Ok(b) && b.wf() && b.spec_id() == id@ && b.spec_kind()
                    == kind && b.spec_dialect() == dialect && b.spec_contract() == contract,
                None => r matches Err(e) && is_configuration(
                    e,
                    "protocol id, dialect, and contract do not form a supported binding"@,
                ),
            },
    {
        let openai = str_eq(id.as_str(), "openai-chat-completions");
        let anthropic = str_eq(id.as_str(), "anthropic-messages");
        let kind = if openai && dialect == ProtocolDialect::OpenAiChatCompletions && matches!(
            contract,
            ResolvedProtocolContract::OpenAiChat(_)
        ) {
            ProtocolKind::OpenAiChatCompletions
        } else if anthropic && dialect == ProtocolDialect::AnthropicMessages && matches!(
            contract,
            ResolvedProtocolContract::AnthropicMessages(_)
        ) {
            ProtocolKind::AnthropicMessages
        } else {
            return Err(
                configuration("protocol id, dialect, and contract do not form a supported binding"),
            );
        };
        Ok(ValidatedProtocolBinding { id, kind, dialect, contract })
    }

    /// The strict `OpenAI` Chat Completions binding.
    pub fn openai_chat() -> (r: Self)
        ensures
            r.wf(),
            r.spec_id() == "openai-chat-completions"@,
            r.spec_kind() == ProtocolKind::OpenAiChatCompletions,
            r.spec_dialect() == ProtocolDialect::OpenAiChatCompletions,
            r.spec_contract() is OpenAiChat,
    {
        proof {
            reveal_strlit("openai-chat-completions");
            lemma_utf8_len_bound("openai-chat-completions"@);
        }
        let id = ProtocolId::new("openai-chat-completions");
        proof {
            assert(identifier_rejection("openai-chat-completions"@) is None);
        }
        let id = id.unwrap();
        Self::new(id, ProtocolDialect::OpenAiChatCompletions, ResolvedProtocolContract::strict_openai_chat()).unwrap()
    }

    /// The strict official Anthropic Messages binding.
    pub fn anthropic_messages() -> (r: Self)
        ensures
            r.wf(),
            r.spec_id() == "anthropic-messages"@,
            r.spec_kind() == ProtocolKind::AnthropicMessages,
            r.spec_dialect() == ProtocolDialect::AnthropicMessages,
            r.spec_contract() is AnthropicMessages,
    {
        proof {
            reveal_strlit("anthropic-messages");
            lemma_utf8_len_bound("anthropic-messages"@);
        }
        let id = ProtocolId::new("anthropic-messages");
        proof {
            assert(identifier_rejection("anthropic-messages"@) is None);
        }
        let id = id.unwrap();
        Self::new(id, ProtocolDialect::AnthropicMessages, ResolvedProtocolContract::strict_anthropic_messages()).unwrap()
    }

    /// Returns the protocol identifier.
    pub fn id(&self) -> (r: &ProtocolId)
        ensures
            r@ == self.spec_id(),
    {
        &self.id
    }

    /// Returns the dispatch kind.
    pub fn kind(&self) -> (r: ProtocolKind)
        ensures
            r == self.spec_kind(),
    {
        self.kind
    }

    /// Returns the protocol dialect.
    pub fn dialect(&self) -> (r: ProtocolDialect)
        ensures
            r == self.spec_dialect(),
    {
        self.dialect
    }

    /// Returns the resolved contract.
    pub fn contract(&self) -> (r: &ResolvedProtocolContract)
        ensures
            *r == self.spec_contract(),
    {
        &self.contract
    }

    /// Replaces the contract, re-validating the complete tuple.
    pub fn with_contract(self, contract: ResolvedProtocolContract) -> (r: Result<Self, LlmError>)
        ensures
            match binding_kind(self.spec_id(), self.spec_dialect(), contract) {
                Some(kind) => r matches Ok(b) && b.wf() && b.spec_id() == self.spec_id()
                    && b.spec_kind() == kind && b.spec_dialect() == self.spec_dialect()
                    && b.spec_contract() == contract,
                None => r matches Err(e) && is_configuration(
                    e,
                    "protocol id, dialect, and contract do not form a supported binding"@,
                ),
            },
    {
        Self::new(self.id, self.dialect, contract)
    }

    /// Accepts a model-level contract override only when it belongs to the binding's
    /// dialect.
    pub fn validate_contract(&self, contract: &ResolvedProtocolContract) -> (r: Result<
        (),
        LlmError,
    >)
        ensures
            contract_matches(*contract, self.spec_dialect()) ==> r is Ok,
            !contract_matches(*contract, self.spec_dialect()) ==> (r matches Err(e)
                && is_configuration(
                e,
                "model protocol contract does not match the provider protocol binding"@,
            )),
    {
        if contract.matches_dialect(self.dialect) {
            Ok(())
        } else {
            Err(
                configuration(
                    "model protocol contract does not match the provider protocol binding",
                ),
            )
        }
    }

    /// Value-free rendering: identity, kind, dialect and contract label, but no
    /// compatibility internals.
    pub fn debug_summary(&self) -> (r: String)
        ensures
            r@ == "ValidatedProtocolBinding { id: \""@ + self.spec_id() + "\", kind: "@
                + kind_name(self.spec_kind()) + ", dialect: "@ + dialect_name(self.spec_dialect())
                + ", contract: \""@ + contract_label(self.spec_contract()) + "\" }"@,
    {
        let mut out = owned("ValidatedProtocolBinding { id: \"");
        out = concat(out, self.id.as_str());
        out = concat(out, "\", kind: ");
        out = concat(out, kind_str(self.kind));
        out = concat(out, ", dialect: ");
        out = concat(out, dialect_str(self.dialect));
        out = concat(out, ", contract: \"");
        out = concat(out, self.contract.label());
        out = concat(out, "\" }");
        out
    }
}

pub open spec fn kind_name(k: ProtocolKind) -> Seq<char> {
    match k {
        ProtocolKind::OpenAiChatCompletions => "OpenAiChatCompletions"@,
        ProtocolKind::AnthropicMessages => "AnthropicMessages"@,
    }
}

pub open spec fn dialect_name(d: ProtocolDialect) -> Seq<char> {
    match d {
        ProtocolDialect::OpenAiChatCompletions => "OpenAiChatCompletions"@,
        ProtocolDialect::AnthropicMessages => "AnthropicMessages"@,
    }
}

pub open spec fn contract_label(c: ResolvedProtocolContract) -> Seq<char> {
    match c {
        ResolvedProtocolContract::OpenAiChat(_) => "openai-chat"@,
        ResolvedProtocolContract::AnthropicMessages(_) => "anthropic-messages"@,
    }
}

fn kind_str(k: ProtocolKind) -> (r: &'static str)
    ensures
        r@ == kind_name(k),
{
    match k {
        ProtocolKind::OpenAiChatCompletions => "OpenAiChatCompletions",
        ProtocolKind::AnthropicMessages => "AnthropicMessages",
    }
}

fn dialect_str(d: ProtocolDialect) -> (r: &'static str)
    ensures
        r@ == dialect_name(d),
{
    match d {
        ProtocolDialect::OpenAiChatCompletions => "OpenAiChatCompletions",
        ProtocolDialect::AnthropicMessages => "AnthropicMessages",
    }
}

} // verus!
