//! The official Anthropic model catalog and the fixed official provider definitions.

use vstd::prelude::*;
use vstd::utf8::encode_utf8;

use crate::domain::{
    identifier_rejection, CapabilityStatus, ModelId, ProtocolId, ProviderId, ReasoningEffortSupport,
};
use crate::error::{is_configuration, LlmError};
use crate::provider::catalog::entry::{ModelEntryView, ModelKeyView};
use crate::provider::catalog::merge::{catalog_outcome, insert_all};
use crate::provider::catalog::source::{date_rejection, CatalogSourceView};
use crate::provider::catalog::{
    CatalogCapabilities, CatalogProvenance, CatalogSource, CatalogSourceId, ModelCatalog, ModelEntry,
    ModelKey, ModelLimits, ProductId, ProviderModelId, WireModelValue,
};
use crate::provider::capability::{
    official_anthropic_capabilities, official_openai_capabilities, ProtocolDialect, ProviderCapabilities,
};
use crate::provider::definition::{
    definition_outcome, fresh_draft, frozen, refusal_reported, AuthScheme, AuthSchemeView, DefinitionDraft,
    ProviderDefinition,
};
use crate::provider::endpoint::audience::{audience_binding, CredentialAudience, CredentialBinding};
use crate::provider::endpoint::config::EndpointConfig;
use crate::provider::endpoint::policy::RedirectPolicy;
use crate::provider::endpoint::target::parsed_url_facts;
use crate::provider::headers::pipeline::{lemma_header_text_bytes, HeaderOperation, HeaderOperationView};
use crate::provider::idempotency::IdempotencyCapability;
use crate::provider::protocol_contract::contract::{strict_official_anthropic, ResolvedProtocolContract};
use crate::provider::rate_limit::{RateLimitHeaderKind, RateLimitHeaderSpec, RateLimitPolicy, RateLimitUnit};
use crate::text::{lemma_utf8_len_bound, seq_lt};

verus! {

/// Fixed API version sent by the official Anthropic Messages definition.
pub const OFFICIAL_ANTHROPIC_API_VERSION: &'static str = "2023-06-01";

/// The review record behind the official Anthropic catalog.
pub open spec fn anthropic_ledger() -> CatalogSourceView {
    CatalogSourceView {
        id: "anthropic-models-ledger"@,
        reviewed_at: "2026-07-25"@,
        expires_at: Some("2026-08-25"@),
    }
}

/// The capability facts the official Anthropic catalog records for every model.
pub open spec fn anthropic_catalog_capabilities() -> CatalogCapabilities {
    CatalogCapabilities {
        function_tools: CapabilityStatus::Supported,
        tool_choice_required: CapabilityStatus::Supported,
        tool_choice_specific: CapabilityStatus::Supported,
        parallel_tool_calls: CapabilityStatus::Supported,
        strict_tools: CapabilityStatus::Supported,
        vision_input: CapabilityStatus::Supported,
        image_detail_original: CapabilityStatus::Unsupported,
        response_format_json_object: CapabilityStatus::Unsupported,
        response_format_json_schema: CapabilityStatus::Supported,
        reasoning_efforts: ReasoningEffortSupport::Unsupported,
        adaptive_thinking: CapabilityStatus::Supported,
        adaptive_thinking_effort: CapabilityStatus::Supported,
    }
}

/// The official Anthropic catalog entry for `model`: the model name is its provider
/// model id and wire value, with a 4096-token default output and no pricing.
pub open spec fn anthropic_entry(model: Seq<char>) -> ModelEntryView {
    ModelEntryView {
        key: ("official-anthropic"@, "messages"@, model),
        provider_model_id: model,
        deployment_id: None,
        wire_model_value: model,
        display_name: model,
        protocol_id: "anthropic-messages"@,
        capabilities: anthropic_catalog_capabilities(),
        limits: ModelLimits {
            context_window_tokens: None,
            max_output_tokens: None,
            max_messages: None,
            max_tools: None,
            max_images: None,
            max_schema_bytes: None,
        },
        default_max_output_tokens: Some(4096),
        pricing: None,
        source: anthropic_ledger(),
        support_status: CapabilityStatus::Supported,
        provenance: Map::empty(),
    }
}

/// The views of model identifiers.
pub open spec fn model_views(models: Seq<ModelId>) -> Seq<Seq<char>> {
    models.map_values(|m: ModelId| m@)
}

/// The official Anthropic catalog entries for `models`, in the order they are added.
pub open spec fn anthropic_entries(models: Seq<Seq<char>>) -> Seq<ModelEntryView> {
    models.map_values(|m: Seq<char>| anthropic_entry(m))
}

fn catalog_capabilities() -> (r: CatalogCapabilities)
    ensures
        r == anthropic_catalog_capabilities(),
{
    CatalogCapabilities {
        function_tools: CapabilityStatus::Supported,
        tool_choice_required: CapabilityStatus::Supported,
        tool_choice_specific: CapabilityStatus::Supported,
        parallel_tool_calls: CapabilityStatus::Supported,
        strict_tools: CapabilityStatus::Supported,
        vision_input: CapabilityStatus::Supported,
        image_detail_original: CapabilityStatus::Unsupported,
        response_format_json_object: CapabilityStatus::Unsupported,
        response_format_json_schema: CapabilityStatus::Supported,
        reasoning_efforts: ReasoningEffortSupport::Unsupported,
        adaptive_thinking: CapabilityStatus::Supported,
        adaptive_thinking_effort: CapabilityStatus::Supported,
    }
}

fn ledger() -> (r: CatalogSource)
    ensures
        r@ == anthropic_ledger(),
{
    proof {
        reveal_strlit("anthropic-models-ledger");
        reveal_strlit("2026-07-25");
        reveal_strlit("2026-08-25");
        lemma_utf8_len_bound("anthropic-models-ledger"@);
        assert(identifier_rejection("anthropic-models-ledger"@) is None);
        assert(date_rejection("2026-07-25"@) is None);
        assert(date_rejection("2026-08-25"@) is None);
        reveal_with_fuel(seq_lt, 8);
        assert(!seq_lt("2026-08-25"@, "2026-07-25"@));
    }
    let id = CatalogSourceId::new("anthropic-models-ledger").unwrap();
    CatalogSource::new(id, "2026-07-25", Some("2026-08-25")).unwrap()
}

fn anthropic_model_entry(model: &str, source: CatalogSource) -> (r: ModelEntry)
    requires
        identifier_rejection(model@) is None,
        source@ == anthropic_ledger(),
    ensures
        r@ == anthropic_entry(model@),
{
    proof {
        reveal_strlit("official-anthropic");
        reveal_strlit("messages");
        reveal_strlit("anthropic-messages");
        lemma_utf8_len_bound("official-anthropic"@);
        lemma_utf8_len_bound("messages"@);
        lemma_utf8_len_bound("anthropic-messages"@);
        assert(identifier_rejection("official-anthropic"@) is None);
        assert(identifier_rejection("messages"@) is None);
        assert(identifier_rejection("anthropic-messages"@) is None);
    }
    ModelEntry {
        key: ModelKey {
            provider_id: ProviderId::new("official-anthropic").unwrap(),
            product_id: ProductId::new("messages").unwrap(),
            domain_model_id: ModelId::new(model).unwrap(),
        },
        provider_model_id: ProviderModelId::new(model).unwrap(),
        deployment_id: None,
        wire_model_value: WireModelValue::new(model).unwrap(),
        display_name: model.to_owned(),
        protocol_id: ProtocolId::new("anthropic-messages").unwrap(),
        capabilities: catalog_capabilities(),
        limits: ModelLimits::default(),
        default_max_output_tokens: Some(4096),
        pricing: None,
        source,
        support_status: CapabilityStatus::Supported,
        provenance: CatalogProvenance::new(),
    }
}

/// The official Anthropic catalog for the reviewed `models`: each model is its own
/// provider model id and wire value under the fixed review record, and the entries are
/// added as [`ModelCatalog::from_entries`] adds them.
pub fn official_anthropic_catalog(models: &Vec<ModelId>) -> (r: Result<ModelCatalog, LlmError>)
    ensures
        catalog_outcome(insert_all(Map::empty(), anthropic_entries(model_views(models@))), r),
{
    let mut entries: Vec<ModelEntry> = Vec::new();
    let mut i: usize = 0;
    while i < models.len()
        invariant
            i <= models@.len(),
            crate::provider::catalog::merge::entry_views(entries@) == anthropic_entries(
                model_views(models@),
            ).subrange(0, i as int),
        decreases models@.len() - i,
    {
        let model = models[i].as_str();
        let entry = anthropic_model_entry(model, ledger());
        let ghost before = entries@;
        entries.push(entry);
        proof {
            assert(crate::provider::catalog::merge::entry_views(entries@) =~= crate::provider::catalog::merge::entry_views(
                before,
            ).push(anthropic_entry(models@[i as int]@)));
            assert(anthropic_entries(model_views(models@)).subrange(0, i + 1) =~= anthropic_entries(
                model_views(models@),
            ).subrange(0, i as int).push(anthropic_entry(models@[i as int]@)));
        }
        i = i + 1;
    }
    proof {
        assert(anthropic_entries(model_views(models@)).subrange(0, i as int) =~= anthropic_entries(
            model_views(models@),
        ));
    }
    ModelCatalog::from_entries(entries)
}

/// `r` is what building the definition draft `d` gives.
pub open spec fn built_from(d: DefinitionDraft, r: Result<ProviderDefinition, LlmError>) -> bool {
    match definition_outcome(d) {
        Err(refusal) => r matches Err(e) && refusal_reported(e, refusal),
        Ok(binding) => r matches Ok(def) && def@ == frozen(d, binding),
    }
}

/// `endpoint` appends `path` to the parsed form of the base URL `base`.
pub open spec fn fixed_endpoint(endpoint: Option<EndpointConfig>, base: Seq<char>, path: Seq<char>) -> bool {
    endpoint matches Some(EndpointConfig::BaseAndPath { base_url: b, endpoint_path: p }) && parsed_url_facts(base)
        == Some(b@) && p@ == path
}

/// `d` is the draft of the official `OpenAI` definition: the fresh `OpenAI` Chat draft for
/// `official-openai`/`chat-completions`, fixed to the official endpoint, the official
/// `OpenAI` credential destination, bearer authentication, the official capabilities and an
/// empty catalog.
pub open spec fn official_openai_draft(d: DefinitionDraft) -> bool {
    &&& d == (DefinitionDraft {
        endpoint: d.endpoint,
        credential_binding: Some(audience_binding(CredentialAudience::OfficialOpenAi)),
        bind_to_endpoint_origin: false,
        auth_scheme: Some(AuthSchemeView::Bearer),
        capabilities: Some(official_openai_capabilities()),
        catalog: d.catalog,
        allow_unregistered_models: false,
        ..fresh_draft(
            "official-openai"@,
            "chat-completions"@,
            "openai-chat-completions"@,
            ProtocolDialect::OpenAiChatCompletions,
            d.protocol_contract,
            d.transport,
            d.rate_limit,
            d.idempotency,
        )
    })
    &&& fixed_endpoint(d.endpoint, "https://api.openai.com/v1"@, "/chat/completions"@)
    &&& d.catalog matches Some(c) && c@ == Map::<ModelKeyView, ModelEntryView>::empty()
    &&& d.protocol_contract matches ResolvedProtocolContract::OpenAiChat(c) && c.spec_compat().spec_request()
        == crate::provider::protocol_contract::request::request_defaults() && c.spec_compat().spec_response()
        == crate::provider::protocol_contract::response::response_defaults() && c.spec_compat().spec_history()
        == crate::provider::protocol_contract::history::history_defaults()
    &&& d.transport.spec_redirect_policy() == RedirectPolicy::Disabled
    &&& d.idempotency.spec_capability() == IdempotencyCapability::Unknown
    &&& d.rate_limit.spec_headers() == Seq::<(Seq<char>, RateLimitHeaderKind)>::empty()
}

/// The rate-limit headers the official Anthropic definition observes.
pub open spec fn anthropic_rate_limit_headers() -> Seq<(Seq<char>, RateLimitHeaderKind)> {
    seq![
        ("anthropic-ratelimit-requests-remaining"@, RateLimitHeaderKind::RemainingRequests),
        ("anthropic-ratelimit-tokens-remaining"@, RateLimitHeaderKind::RemainingUnits(RateLimitUnit::Tokens)),
    ]
}

/// The provider headers of the official Anthropic definition: the fixed API version, and
/// no beta header.
pub open spec fn anthropic_provider_headers() -> Seq<HeaderOperationView> {
    seq![
        HeaderOperationView::Assign("anthropic-version"@, encode_utf8("2023-06-01"@), false),
        HeaderOperationView::Remove("anthropic-beta"@),
    ]
}

/// `d` is the draft of the official Anthropic definition: the fresh Anthropic Messages
/// draft for `official-anthropic`/`messages`, fixed to the official endpoint, the official
/// Anthropic credential destination, the `x-api-key` header, the protected API version,
/// the official capabilities and rate-limit headers, and the official catalog of `models`.
pub open spec fn official_anthropic_draft(d: DefinitionDraft, models: Seq<Seq<char>>) -> bool {
    &&& d == (DefinitionDraft {
        endpoint: d.endpoint,
        credential_binding: Some(audience_binding(CredentialAudience::OfficialAnthropic)),
        bind_to_endpoint_origin: false,
        auth_scheme: Some(AuthSchemeView::ApiKeyHeader("x-api-key"@)),
        provider_headers: anthropic_provider_headers(),
        capabilities: Some(official_anthropic_capabilities()),
        catalog: d.catalog,
        allow_unregistered_models: false,
        ..fresh_draft(
            "official-anthropic"@,
            "messages"@,
            "anthropic-messages"@,
            ProtocolDialect::AnthropicMessages,
            ResolvedProtocolContract::AnthropicMessages(strict_official_anthropic()),
            d.transport,
            d.rate_limit,
            d.idempotency,
        )
    })
    &&& fixed_endpoint(d.endpoint, "https://api.anthropic.com/v1"@, "/messages"@)
    &&& d.catalog matches Some(c) && insert_all(Map::empty(), anthropic_entries(models)) == Ok::<
        Map<ModelKeyView, ModelEntryView>,
        Seq<char>,
    >(c@)
    &&& d.transport.spec_redirect_policy() == RedirectPolicy::Disabled
    &&& d.idempotency.spec_capability() == IdempotencyCapability::Unknown
    &&& d.rate_limit.spec_headers() == anthropic_rate_limit_headers()
}

proof fn lemma_encode_len_bound(s: Seq<char>)
    ensures
        encode_utf8(s).len() <= 4 * s.len(),
    decreases s.len(),
{
    if s.len() > 0 {
        lemma_encode_len_bound(s.drop_first());
    }
}

/// The secret-free official `OpenAI` definition: it fails only where the fixed base URL
/// does not parse, and is otherwise what building the official draft gives.
pub fn official_openai_definition() -> (r: Result<ProviderDefinition, LlmError>)
    ensures
        parsed_url_facts("https://api.openai.com/v1"@) is None ==> (r matches Err(e) && is_configuration(
            e,
            "invalid base URL"@,
        )),
        parsed_url_facts("https://api.openai.com/v1"@) is Some ==> exists|d: DefinitionDraft|
            official_openai_draft(d) && #[trigger] built_from(d, r),
{
    proof {
        reveal_strlit("official-openai");
        reveal_strlit("chat-completions");
        lemma_utf8_len_bound("official-openai"@);
        lemma_utf8_len_bound("chat-completions"@);
        assert(identifier_rejection("official-openai"@) is None);
        assert(identifier_rejection("chat-completions"@) is None);
    }
    let endpoint = EndpointConfig::base_and_path("https://api.openai.com/v1", "/chat/completions")?;
    let builder = ProviderDefinition::openai_chat(
        ProviderId::new("official-openai").unwrap(),
        ProductId::new("chat-completions").unwrap(),
    ).with_endpoint(endpoint).with_credential_binding(CredentialBinding::official_openai()).with_auth_scheme(
        AuthScheme::bearer(),
    ).with_capabilities(ProviderCapabilities::official_openai()).with_catalog(ModelCatalog::default());
    let ghost draft = builder@;
    let r = builder.build();
    assert(official_openai_draft(draft));
    assert(built_from(draft, r));
    r
}

/// The secret-free official Anthropic definition whose catalog lists the reviewed
/// `models`: it fails where the fixed base URL does not parse or the catalog is refused,
/// and is otherwise what building the official draft gives.
pub fn official_anthropic_definition(models: &Vec<ModelId>) -> (r: Result<ProviderDefinition, LlmError>)
    ensures
        parsed_url_facts("https://api.anthropic.com/v1"@) is None ==> (r matches Err(e) && is_configuration(
            e,
            "invalid base URL"@,
        )),
        parsed_url_facts("https://api.anthropic.com/v1"@) is Some ==> match insert_all(
            Map::empty(),
            anthropic_entries(model_views(models@)),
        ) {
            Err(message) => r matches Err(e) && is_configuration(e, message),
            Ok(_) => exists|d: DefinitionDraft|
                official_anthropic_draft(d, model_views(models@)) && #[trigger] built_from(d, r),
        },
{
    proof {
        reveal_strlit("official-anthropic");
        reveal_strlit("messages");
        reveal_strlit("x-api-key");
        reveal_strlit("2023-06-01");
        reveal_strlit("anthropic-ratelimit-requests-remaining");
        reveal_strlit("anthropic-ratelimit-tokens-remaining");
        lemma_utf8_len_bound("official-anthropic"@);
        lemma_utf8_len_bound("messages"@);
        assert(identifier_rejection("official-anthropic"@) is None);
        assert(identifier_rejection("messages"@) is None);
        lemma_encode_len_bound("x-api-key"@);
        reveal_strlit("host");
        reveal_strlit("content-length");
        reveal_strlit("content-type");
        reveal_strlit("accept");
        reveal_strlit("transfer-encoding");
        reveal_strlit("connection");
        reveal_strlit("cookie");
        reveal_strlit("set-cookie");
        reveal_strlit("user-agent");
        assert(!crate::provider::auth::providers::auth_name_rejected("x-api-key"@));
        lemma_header_text_bytes("2023-06-01"@);
    }
    let scheme = AuthScheme::api_key_header("x-api-key").unwrap();
    let requests = RateLimitHeaderSpec::new(
        "anthropic-ratelimit-requests-remaining",
        RateLimitHeaderKind::RemainingRequests,
    );
    let tokens = RateLimitHeaderSpec::new(
        "anthropic-ratelimit-tokens-remaining",
        RateLimitHeaderKind::RemainingUnits(RateLimitUnit::Tokens),
    );
    let rate_limit = RateLimitPolicy::standard_only().with_header(requests).unwrap();
    proof {
        assert(rate_limit.spec_headers().len() == 1);
        assert(rate_limit.spec_headers()[0].0 != tokens.spec_name()) by {
            assert(rate_limit.spec_headers()[0].0[20] != tokens.spec_name()[20]);
        }
    }
    let rate_limit = rate_limit.with_header(tokens).unwrap();
    let endpoint = EndpointConfig::base_and_path("https://api.anthropic.com/v1", "/messages")?;
    let version = HeaderOperation::set("anthropic-version", OFFICIAL_ANTHROPIC_API_VERSION.as_bytes()).unwrap();
    let headers = vec![version, HeaderOperation::remove("anthropic-beta")];
    let catalog = official_anthropic_catalog(models)?;
    let builder = ProviderDefinition::anthropic_messages(
        ProviderId::new("official-anthropic").unwrap(),
        ProductId::new("messages").unwrap(),
    ).with_endpoint(endpoint).with_credential_binding(CredentialBinding::official_anthropic()).with_auth_scheme(
        scheme,
    ).with_provider_headers(headers).with_capabilities(ProviderCapabilities::official_anthropic()).with_rate_limit_policy(
        rate_limit,
    ).with_catalog(catalog);
    let ghost draft = builder@;
    let r = builder.build();
    assert(draft.rate_limit.spec_headers() =~= anthropic_rate_limit_headers());
    assert(draft.provider_headers =~= anthropic_provider_headers());
    assert(official_anthropic_draft(draft, model_views(models@)));
    assert(built_from(draft, r));
    r
}

} // verus!
