//! Validated, secret-free provider definitions and their fail-closed builder.

use vstd::prelude::*;
use vstd::utf8::encode_utf8;

use crate::domain::{identifier_rejection, CapabilityStatus, ModelId, PolicySource, ProtocolId, ProviderId};
use crate::error::{configuration, is_configuration, LlmError};
use crate::keyed::{keyed_map, names_sorted, upsert};
use crate::text::{lemma_utf8_len_bound, str_eq, utf8_len, utf8_len_exceeds};

use super::auth::providers::{auth_name_refused, auth_name_rejected, validate_auth_name};
use super::auth::{ApiKey, ApiKeyHeaderAuth, AuthSchemeKind, BearerAuth, BearerCredential};
use super::capability::{ModelCapabilityProfile, ProtocolDialect, ProviderCapabilities, ProviderTransportOptions};
use super::catalog::entry::{CatalogCapabilities, ModelEntry};
use super::catalog::ids::ProductId;
use super::catalog::merge::ModelCatalog;
use super::compat::patch::{patch_is_empty, CompatPatch};
use super::compat::routing::OpenRouterRoutingContract;
use super::endpoint::audience::{binding_permits, BindingView, CredentialBinding};
use super::endpoint::config::{resolution_of, EndpointConfig, ResolvedParts};
use super::endpoint::mapping::ResolvedModelMapping;
use super::endpoint::origin::OriginView;
use super::endpoint::policy::EndpointMode;
use super::endpoint::template::EndpointValuesView;
use super::headers::dynamic::{DynamicHeaderPolicy, DynamicPolicyView};
use super::headers::pipeline::{
    json_media_type, layers_resolution, operation_name, operation_views, refused_as, texts,
    HeaderLayer, HeaderOperation, HeaderOperationView, HeaderPipeline, HeaderPolicyView,
    HeaderRefusal,
};
use super::headers::HeaderSource;
use super::idempotency::{IdempotencyCapability, IdempotencyPolicy};
use super::endpoint::policy::RedirectPolicy;
use super::protocol_contract::contract::{contract_matches, ResolvedProtocolContract};
use super::protocol_contract::AnthropicUsageCompat;
use super::rate_limit::{RateLimitHeaderKind, RateLimitPolicy};

verus! {

/// Mathematical form of an [`AuthScheme`].
pub enum AuthSchemeView {
    /// `Authorization: Bearer <secret>`.
    Bearer,
    /// One registered API-key header.
    ApiKeyHeader(Seq<char>),
    /// Another shape that owns the listed headers.
    Custom(AuthSchemeKind, Seq<Seq<char>>),
    /// Explicit unauthenticated operation.
    Unauthenticated,
}

enum AuthSchemeInner {
    Bearer,
    ApiKeyHeader(String),
    Custom { kind: AuthSchemeKind, protected_headers: Vec<String> },
    Unauthenticated,
}

/// Validated, secret-free authentication shape for a provider definition.
pub struct AuthScheme(AuthSchemeInner);

impl View for AuthScheme {
    type V = AuthSchemeView;

    closed spec fn view(&self) -> AuthSchemeView {
        match self.0 {
            AuthSchemeInner::Bearer => AuthSchemeView::Bearer,
            AuthSchemeInner::ApiKeyHeader(name) => AuthSchemeView::ApiKeyHeader(name@),
            AuthSchemeInner::Custom { kind, protected_headers } => AuthSchemeView::Custom(
                kind,
                texts(protected_headers@),
            ),
            AuthSchemeInner::Unauthenticated => AuthSchemeView::Unauthenticated,
        }
    }
}

/// The shape's kind.
pub open spec fn scheme_kind_of(scheme: AuthSchemeView) -> AuthSchemeKind {
    match scheme {
        AuthSchemeView::Bearer => AuthSchemeKind::Bearer,
        AuthSchemeView::ApiKeyHeader(_) => AuthSchemeKind::ApiKeyHeader,
        AuthSchemeView::Custom(kind, _) => kind,
        AuthSchemeView::Unauthenticated => AuthSchemeKind::Unauthenticated,
    }
}

/// The headers the shape owns.
pub open spec fn scheme_headers_of(scheme: AuthSchemeView) -> Seq<Seq<char>> {
    match scheme {
        AuthSchemeView::Bearer => seq!["authorization"@],
        AuthSchemeView::ApiKeyHeader(name) => seq![name],
        AuthSchemeView::Custom(_, headers) => headers,
        AuthSchemeView::Unauthenticated => Seq::empty(),
    }
}

/// No name occurs twice.
pub open spec fn names_distinct(names: Seq<Seq<char>>) -> bool {
    forall|i: int, j: int| 0 <= i < j < names.len() ==> names[i] != names[j]
}

/// Why a provider's value-free authentication shape cannot be captured, or `None`.
pub enum SchemeRefusal {
    /// A fixed configuration message.
    Configuration(Seq<char>),
    /// A header that cannot carry authentication.
    HeaderName,
}

/// How capturing the shape `kind` owning `headers` ends.
pub open spec fn captured_scheme(kind: AuthSchemeKind, headers: Seq<Seq<char>>) -> Result<
    AuthSchemeView,
    SchemeRefusal,
> {
    match kind {
        AuthSchemeKind::Bearer => Ok(AuthSchemeView::Bearer),
        AuthSchemeKind::ApiKeyHeader => if headers.len() != 1 {
            Err(
                SchemeRefusal::Configuration(
                    "API-key authentication must protect exactly one header"@,
                ),
            )
        } else if auth_name_rejected(headers[0]) {
            Err(SchemeRefusal::HeaderName)
        } else {
            Ok(AuthSchemeView::ApiKeyHeader(headers[0]))
        },
        AuthSchemeKind::Unauthenticated => Ok(AuthSchemeView::Unauthenticated),
        _ => if headers.len() == 0 {
            Err(
                SchemeRefusal::Configuration(
                    "custom authentication must declare protected headers"@,
                ),
            )
        } else if exists|i: int| 0 <= i < headers.len() && auth_name_rejected(#[trigger] headers[i]) {
            Err(SchemeRefusal::HeaderName)
        } else if !names_distinct(headers) {
            Err(
                SchemeRefusal::Configuration(
                    "custom authentication protected headers must be unique"@,
                ),
            )
        } else {
            Ok(AuthSchemeView::Custom(kind, headers))
        },
    }
}

/// `r` reports the capture `outcome`.
pub open spec fn scheme_reported(
    outcome: Result<AuthSchemeView, SchemeRefusal>,
    r: Result<AuthScheme, LlmError>,
) -> bool {
    match outcome {
        Ok(v) => r matches Ok(s) && s@ == v,
        Err(SchemeRefusal::Configuration(m)) => r matches Err(e) && is_configuration(e, m),
        Err(SchemeRefusal::HeaderName) => r matches Err(e) && auth_name_refused(e),
    }
}

fn distinct_names(names: &Vec<String>) -> (r: bool)
    ensures
        r == names_distinct(texts(names@)),
{
    let ghost all = texts(names@);
    let mut i: usize = 0;
    while i < names.len()
        invariant
            i <= names@.len(),
            all == texts(names@),
            forall|a: int, b: int| 0 <= a < b < i ==> all[a] != all[b],
        decreases names@.len() - i,
    {
        let mut j: usize = 0;
        while j < i
            invariant
                j <= i,
                i < names@.len(),
                all == texts(names@),
                forall|a: int, b: int| 0 <= a < b < i ==> all[a] != all[b],
                forall|a: int| 0 <= a < j ==> all[a] != all[i as int],
            decreases i - j,
        {
            proof {
                assert(all[j as int] == names@[j as int]@);
                assert(all[i as int] == names@[i as int]@);
            }
            if str_eq(names[j].as_str(), names[i].as_str()) {
                return false;
            }
            j = j + 1;
        }
        i = i + 1;
    }
    true
}

impl AuthScheme {
    /// Declares Bearer authentication.
    pub fn bearer() -> (r: Self)
        ensures
            r@ == AuthSchemeView::Bearer,
    {
        AuthScheme(AuthSchemeInner::Bearer)
    }

    /// Declares one validated API-key header.
    pub fn api_key_header(name: &str) -> (r: Result<Self, LlmError>)
        ensures
            !auth_name_rejected(name@) ==> (r matches Ok(s) && s@ == AuthSchemeView::ApiKeyHeader(
                name@,
            )),
            auth_name_rejected(name@) ==> (r matches Err(e) && auth_name_refused(e)),
    {
        validate_auth_name(name)?;
        Ok(AuthScheme(AuthSchemeInner::ApiKeyHeader(name.to_owned())))
    }

    /// Declares explicit unauthenticated operation.
    pub fn none() -> (r: Self)
        ensures
            r@ == AuthSchemeView::Unauthenticated,
    {
        AuthScheme(AuthSchemeInner::Unauthenticated)
    }

    /// Captures the value-free authentication shape of a provider from its kind and the
    /// headers it owns.
    pub fn from_auth_provider(kind: AuthSchemeKind, protected_headers: Vec<String>) -> (r: Result<
        Self,
        LlmError,
    >)
        ensures
            scheme_reported(captured_scheme(kind, texts(protected_headers@)), r),
    {
        let ghost names = texts(protected_headers@);
        match kind {
            AuthSchemeKind::Bearer => Ok(AuthScheme(AuthSchemeInner::Bearer)),
            AuthSchemeKind::ApiKeyHeader => {
                if protected_headers.len() != 1 {
                    return Err(
                        configuration("API-key authentication must protect exactly one header"),
                    );
                }
                proof {
                    assert(names[0] == protected_headers@[0]@);
                }
                Self::api_key_header(protected_headers[0].as_str())
            },
            AuthSchemeKind::Unauthenticated => Ok(AuthScheme(AuthSchemeInner::Unauthenticated)),
            _ => {
                if protected_headers.len() == 0 {
                    return Err(configuration("custom authentication must declare protected headers"));
                }
                let mut i: usize = 0;
                while i < protected_headers.len()
                    invariant
                        i <= protected_headers@.len(),
                        names == texts(protected_headers@),
                        protected_headers@.len() > 0,
                        kind != AuthSchemeKind::Bearer && kind != AuthSchemeKind::ApiKeyHeader
                            && kind != AuthSchemeKind::Unauthenticated,
                        forall|k: int| 0 <= k < i ==> !auth_name_rejected(#[trigger] names[k]),
                    decreases protected_headers@.len() - i,
                {
                    proof {
                        assert(names[i as int] == protected_headers@[i as int]@);
                    }
                    match validate_auth_name(protected_headers[i].as_str()) {
                        Ok(()) => {},
                        Err(e) => {
                            proof {
                                assert(auth_name_rejected(names[i as int]));
                            }
                            return Err(e);
                        },
                    }
                    i = i + 1;
                }
                if !distinct_names(&protected_headers) {
                    return Err(
                        configuration("custom authentication protected headers must be unique"),
                    );
                }
                Ok(AuthScheme(AuthSchemeInner::Custom { kind, protected_headers }))
            },
        }
    }

    /// Returns the shape's kind.
    pub fn kind(&self) -> (r: AuthSchemeKind)
        ensures
            r == scheme_kind_of(self@),
    {
        match &self.0 {
            AuthSchemeInner::Bearer => AuthSchemeKind::Bearer,
            AuthSchemeInner::ApiKeyHeader(_) => AuthSchemeKind::ApiKeyHeader,
            AuthSchemeInner::Custom { kind, .. } => *kind,
            AuthSchemeInner::Unauthenticated => AuthSchemeKind::Unauthenticated,
        }
    }

    /// Returns the headers the shape owns.
    pub fn protected_headers(&self) -> (r: Vec<String>)
        ensures
            texts(r@) == scheme_headers_of(self@),
    {
        match &self.0 {
            AuthSchemeInner::Bearer => {
                let r = vec!["authorization".to_owned()];
                assert(texts(r@) =~= seq!["authorization"@]);
                r
            },
            AuthSchemeInner::ApiKeyHeader(name) => {
                let r = vec![name.clone()];
                assert(texts(r@) =~= seq![name@]);
                r
            },
            AuthSchemeInner::Custom { protected_headers, .. } => {
                let mut out: Vec<String> = Vec::new();
                let mut i: usize = 0;
                while i < protected_headers.len()
                    invariant
                        i <= protected_headers@.len(),
                        out@.len() == i,
                        forall|k: int| 0 <= k < i ==> #[trigger] out@[k]@ == protected_headers@[k]@,
                    decreases protected_headers@.len() - i,
                {
                    out.push(protected_headers[i].clone());
                    i = i + 1;
                }
                assert(texts(out@) =~= texts(protected_headers@));
                out
            },
            AuthSchemeInner::Unauthenticated => {
                let r: Vec<String> = Vec::new();
                assert(texts(r@) =~= Seq::<Seq<char>>::empty());
                r
            },
        }
    }
}

/// Mathematical form of a [`ProviderDefinitionBuilder`]: every declaration made so far.
pub struct DefinitionDraft {
    pub provider_id: Seq<char>,
    pub product_id: Seq<char>,
    pub protocol_id: Seq<char>,
    pub dialect: ProtocolDialect,
    pub protocol_contract: ResolvedProtocolContract,
    pub endpoint: Option<EndpointConfig>,
    pub credential_binding: Option<BindingView>,
    pub bind_to_endpoint_origin: bool,
    pub auth_scheme: Option<AuthSchemeView>,
    pub provider_headers: Seq<HeaderOperationView>,
    pub model_headers: Seq<HeaderOperationView>,
    pub dynamic_header_policy: Option<DynamicPolicyView>,
    pub capabilities: Option<ProviderCapabilities>,
    pub model_capabilities: Map<Seq<char>, (Seq<char>, CatalogCapabilities)>,
    pub catalog: Option<ModelCatalog>,
    pub allow_unregistered_models: bool,
    pub provider_compat: CompatPatch,
    pub model_compat: Map<Seq<char>, CompatPatch>,
    pub openrouter_routing: Option<OpenRouterRoutingContract>,
    pub transport: ProviderTransportOptions,
    pub rate_limit: RateLimitPolicy,
    pub idempotency: IdempotencyPolicy,
}

/// Why a definition is refused.
pub enum DefinitionRefusal {
    /// A fixed configuration message.
    Configuration(Seq<char>),
    /// The Header owners conflict.
    Header(HeaderRefusal),
}

/// `e` reports the refusal.
pub open spec fn refusal_reported(e: LlmError, refusal: DefinitionRefusal) -> bool {
    match refusal {
        DefinitionRefusal::Configuration(message) => is_configuration(e, message),
        DefinitionRefusal::Header(h) => refused_as(e, h),
    }
}

/// The bytes of `text/event-stream`.
pub open spec fn event_stream_media_type() -> Seq<u8> {
    seq![116u8, 101, 120, 116, 47, 101, 118, 101, 110, 116, 45, 115, 116, 114, 101, 97, 109]
}

/// The layers whose owners a definition must keep apart: the protocol's JSON content
/// type and event-stream accept, then the provider's and the model's declarations.
pub open spec fn owner_layers(
    provider: Seq<HeaderOperationView>,
    model: Seq<HeaderOperationView>,
) -> Seq<(HeaderSource, Seq<HeaderOperationView>)> {
    seq![
        (
            HeaderSource::Protocol,
            seq![
                HeaderOperationView::Assign("content-type"@, json_media_type(), false),
                HeaderOperationView::Assign("accept"@, event_stream_media_type(), false),
            ],
        ),
        (HeaderSource::Provider, provider),
        (HeaderSource::Model, model),
    ]
}

/// The policy that checks a definition's Header owners: Auth owns the scheme's headers and
/// Provider owns every header its operations name.
pub open spec fn owner_policy(auth: AuthSchemeView, provider: Seq<HeaderOperationView>) -> HeaderPolicyView {
    HeaderPolicyView {
        auth: scheme_headers_of(auth),
        provider: provider.map_values(|op: HeaderOperationView| operation_name(op)),
    }
}

/// The endpoint needs catalog values for its template variables.
pub open spec fn needs_mapping(endpoint: EndpointConfig) -> bool {
    endpoint matches EndpointConfig::Template { template, .. } && exists|i: int|
        0 <= i < template@.len() && #[trigger] template@[i] is Variable
}

/// The endpoint values of a catalog entry.
pub open spec fn entry_values(entry: ModelEntry) -> EndpointValuesView {
    EndpointValuesView {
        product_id: entry@.key.1,
        provider_model_id: entry@.provider_model_id,
        deployment_id: entry@.deployment_id,
    }
}

/// How a definition's endpoint resolves: in production, with the first catalog entry's
/// values when the endpoint has template variables.
pub open spec fn definition_resolution(endpoint: EndpointConfig, entries: Seq<ModelEntry>) -> Result<
    (ResolvedParts, OriginView),
    Seq<char>,
> {
    if needs_mapping(endpoint) {
        if entries.len() == 0 {
            Err("endpoint template variables require an exact catalog entry"@)
        } else {
            resolution_of(endpoint, EndpointMode::Production, Some(entry_values(entries[0])))
        }
    } else {
        resolution_of(endpoint, EndpointMode::Production, None)
    }
}

/// The catalog entries a definition would carry: its catalog's, or none when unregistered
/// models are explicitly allowed; `None` when it declared neither or both.
pub open spec fn catalog_choice(d: DefinitionDraft) -> Option<Seq<ModelEntry>> {
    match (d.catalog, d.allow_unregistered_models) {
        (Some(c), false) => Some(c.spec_entries()),
        (None, true) => Some(Seq::empty()),
        _ => None,
    }
}

/// A catalog entry belongs to another provider, product or protocol.
pub open spec fn catalog_mismatch(d: DefinitionDraft, entries: Seq<ModelEntry>) -> bool {
    exists|i: int|
        0 <= i < entries.len() && {
            let e = #[trigger] entries[i]@;
            e.key.0 != d.provider_id || e.key.1 != d.product_id || e.protocol_id != d.protocol_id
        }
}

/// An Anthropic Messages definition carries OpenAI compatibility policy.
pub open spec fn anthropic_compat_conflict(d: DefinitionDraft) -> bool {
    &&& d.dialect == ProtocolDialect::AnthropicMessages
    &&& {
        ||| !patch_is_empty(d.provider_compat)
        ||| exists|m: Seq<char>| #[trigger] d.model_compat.contains_key(m) && !patch_is_empty(d.model_compat[m])
        ||| d.openrouter_routing is Some
    }
}

/// Some provider operation sets or removes `anthropic-version`.
pub open spec fn declares_anthropic_version(provider: Seq<HeaderOperationView>) -> bool {
    exists|i: int| 0 <= i < provider.len() && operation_name(#[trigger] provider[i]) == "anthropic-version"@
}

/// The binding a resolved definition uses, or its refusal.
pub open spec fn chosen_binding(
    d: DefinitionDraft,
    parts: ResolvedParts,
    origin: OriginView,
) -> Result<BindingView, DefinitionRefusal> {
    let chosen = if d.bind_to_endpoint_origin {
        if origin.0 != "https"@ {
            Err(
                DefinitionRefusal::Configuration(
                    "production credential binding requires an HTTPS endpoint"@,
                ),
            )
        } else {
            Ok(BindingView { origin, required_path_prefix: None, label: "exact-https-origin"@ })
        }
    } else {
        match d.credential_binding {
            None => Err(
                DefinitionRefusal::Configuration(
                    "provider definition requires a credential binding"@,
                ),
            ),
            Some(b) => Ok(b),
        }
    };
    match chosen {
        Err(refusal) => Err(refusal),
        Ok(b) => if binding_permits(b, origin, parts.0.path) {
            Ok(b)
        } else {
            Err(
                DefinitionRefusal::Configuration(
                    "credential binding does not match endpoint origin"@,
                ),
            )
        },
    }
}

/// How building a draft ends: the credential binding it freezes, or the first refusal.
pub open spec fn definition_outcome(d: DefinitionDraft) -> Result<BindingView, DefinitionRefusal> {
    if !contract_matches(d.protocol_contract, d.dialect) {
        Err(
            DefinitionRefusal::Configuration(
                "protocol dialect does not match resolved protocol contract"@,
            ),
        )
    } else if d.endpoint is None {
        Err(DefinitionRefusal::Configuration("provider definition requires an endpoint"@))
    } else if d.auth_scheme is None {
        Err(DefinitionRefusal::Configuration("provider definition requires an auth scheme"@))
    } else if d.capabilities is None {
        Err(DefinitionRefusal::Configuration("provider definition requires capabilities"@))
    } else if d.capabilities.unwrap().streaming != CapabilityStatus::Supported {
        Err(DefinitionRefusal::Configuration("profile must declare streaming support"@))
    } else if d.capabilities.unwrap().streaming_usage != CapabilityStatus::Supported {
        Err(DefinitionRefusal::Configuration("profile must declare streaming usage support"@))
    } else if catalog_choice(d) is None {
        Err(
            DefinitionRefusal::Configuration(
                "provider definition requires a catalog or explicit unregistered-model policy"@,
            ),
        )
    } else if catalog_mismatch(d, catalog_choice(d).unwrap()) {
        Err(
            DefinitionRefusal::Configuration(
                "catalog entry does not match provider product protocol"@,
            ),
        )
    } else if exists|m: Seq<char>| #[trigger] d.model_capabilities.contains_key(m) && d.model_capabilities[m].0 != m {
        Err(
            DefinitionRefusal::Configuration(
                "model capability map key does not match its declaration"@,
            ),
        )
    } else if anthropic_compat_conflict(d) {
        Err(
            DefinitionRefusal::Configuration(
                "Anthropic Messages definitions cannot carry OpenAI compatibility policy"@,
            ),
        )
    } else if layers_resolution(
        owner_policy(d.auth_scheme.unwrap(), d.provider_headers),
        owner_layers(d.provider_headers, d.model_headers),
    ) is Err {
        Err(
            DefinitionRefusal::Header(
                layers_resolution(
                    owner_policy(d.auth_scheme.unwrap(), d.provider_headers),
                    owner_layers(d.provider_headers, d.model_headers),
                )->Err_0,
            ),
        )
    } else if d.dialect == ProtocolDialect::AnthropicMessages && !declares_anthropic_version(
        d.provider_headers,
    ) {
        Err(
            DefinitionRefusal::Configuration(
                "Anthropic Messages definition requires a protected anthropic-version header"@,
            ),
        )
    } else {
        match definition_resolution(d.endpoint.unwrap(), catalog_choice(d).unwrap()) {
            Err(message) => Err(DefinitionRefusal::Configuration(message)),
            Ok((parts, origin)) => chosen_binding(d, parts, origin),
        }
    }
}

/// Protocol-specific, fail-closed builder for a provider definition.
pub struct ProviderDefinitionBuilder {
    provider_id: ProviderId,
    product_id: ProductId,
    protocol_id: ProtocolId,
    dialect: ProtocolDialect,
    protocol_contract: ResolvedProtocolContract,
    endpoint: Option<EndpointConfig>,
    credential_binding: Option<CredentialBinding>,
    bind_to_endpoint_origin: bool,
    auth_scheme: Option<AuthScheme>,
    provider_headers: Vec<HeaderOperation>,
    model_headers: Vec<HeaderOperation>,
    dynamic_header_policy: Option<DynamicHeaderPolicy>,
    capabilities: Option<ProviderCapabilities>,
    model_capabilities: Vec<(String, ModelCapabilityProfile)>,
    catalog: Option<ModelCatalog>,
    allow_unregistered_models: bool,
    provider_compat: CompatPatch,
    model_compat: Vec<(String, CompatPatch)>,
    openrouter_routing: Option<OpenRouterRoutingContract>,
    transport: ProviderTransportOptions,
    rate_limit: RateLimitPolicy,
    idempotency: IdempotencyPolicy,
}

impl View for ProviderDefinitionBuilder {
    type V = DefinitionDraft;

    closed spec fn view(&self) -> DefinitionDraft {
        DefinitionDraft {
            provider_id: self.provider_id@,
            product_id: self.product_id@,
            protocol_id: self.protocol_id@,
            dialect: self.dialect,
            protocol_contract: self.protocol_contract,
            endpoint: self.endpoint,
            credential_binding: match self.credential_binding {
                Some(b) => Some(b@),
                None => None,
            },
            bind_to_endpoint_origin: self.bind_to_endpoint_origin,
            auth_scheme: match self.auth_scheme {
                Some(a) => Some(a@),
                None => None,
            },
            provider_headers: operation_views(self.provider_headers@),
            model_headers: operation_views(self.model_headers@),
            dynamic_header_policy: match self.dynamic_header_policy {
                Some(p) => Some(p@),
                None => None,
            },
            capabilities: self.capabilities,
            model_capabilities: keyed_map(self.model_capabilities@),
            catalog: self.catalog,
            allow_unregistered_models: self.allow_unregistered_models,
            provider_compat: self.provider_compat,
            model_compat: keyed_map(self.model_compat@),
            openrouter_routing: self.openrouter_routing,
            transport: self.transport,
            rate_limit: self.rate_limit,
            idempotency: self.idempotency,
        }
    }
}

/// A fresh draft for one provider product and protocol.
pub open spec fn fresh_draft(
    provider_id: Seq<char>,
    product_id: Seq<char>,
    protocol_id: Seq<char>,
    dialect: ProtocolDialect,
    protocol_contract: ResolvedProtocolContract,
    transport: ProviderTransportOptions,
    rate_limit: RateLimitPolicy,
    idempotency: IdempotencyPolicy,
) -> DefinitionDraft {
    DefinitionDraft {
        provider_id,
        product_id,
        protocol_id,
        dialect,
        protocol_contract,
        endpoint: None,
        credential_binding: None,
        bind_to_endpoint_origin: false,
        auth_scheme: None,
        provider_headers: Seq::empty(),
        model_headers: Seq::empty(),
        dynamic_header_policy: None,
        capabilities: None,
        model_capabilities: Map::empty(),
        catalog: None,
        allow_unregistered_models: false,
        provider_compat: CompatPatch {
            source: PolicySource::ProviderProfile,
            model_body: None,
            max_output_tokens: None,
            finish_reason: None,
            tool_arguments: None,
            usage: None,
        },
        model_compat: Map::empty(),
        openrouter_routing: None,
        transport,
        rate_limit,
        idempotency,
    }
}

/// An Anthropic API version: one to 64 bytes of digits and hyphens.
pub open spec fn anthropic_version_ok(version: Seq<char>) -> bool {
    &&& version.len() > 0
    &&& utf8_len(version) <= 64
    &&& forall|i: int| 0 <= i < version.len() ==> {
        let c = #[trigger] version[i];
        ('0' <= c && c <= '9') || c == '-'
    }
}

/// The provider operations without any on `anthropic-version` or `anthropic-beta`.
pub open spec fn without_anthropic_headers(ops: Seq<HeaderOperationView>) -> Seq<HeaderOperationView> {
    ops.filter(
        |op: HeaderOperationView|
            operation_name(op) != "anthropic-version"@ && operation_name(op) != "anthropic-beta"@,
    )
}

impl ProviderDefinitionBuilder {
    #[verifier::type_invariant]
    spec fn maps_sorted(self) -> bool {
        &&& names_sorted(self.model_capabilities@)
        &&& names_sorted(self.model_compat@)
    }

    fn new(
        provider_id: ProviderId,
        product_id: ProductId,
        protocol_id: ProtocolId,
        dialect: ProtocolDialect,
        protocol_contract: ResolvedProtocolContract,
    ) -> (r: Self)
        ensures
            r@.provider_id == provider_id@ && r@.product_id == product_id@ && r@.protocol_id
                == protocol_id@,
            r@ == fresh_draft(
                provider_id@,
                product_id@,
                protocol_id@,
                dialect,
                protocol_contract,
                r@.transport,
                r@.rate_limit,
                r@.idempotency,
            ),
            r@.transport.spec_redirect_policy() == RedirectPolicy::Disabled,
            r@.idempotency.spec_capability() == IdempotencyCapability::Unknown,
            r@.idempotency.spec_wire() is None,
            r@.rate_limit.spec_headers() == Seq::<(Seq<char>, RateLimitHeaderKind)>::empty(),
    {
        let r = ProviderDefinitionBuilder {
            provider_id,
            product_id,
            protocol_id,
            dialect,
            protocol_contract,
            endpoint: None,
            credential_binding: None,
            bind_to_endpoint_origin: false,
            auth_scheme: None,
            provider_headers: Vec::new(),
            model_headers: Vec::new(),
            dynamic_header_policy: None,
            capabilities: None,
            model_capabilities: Vec::new(),
            catalog: None,
            allow_unregistered_models: false,
            provider_compat: CompatPatch::from_source(PolicySource::ProviderProfile),
            model_compat: Vec::new(),
            openrouter_routing: None,
            transport: ProviderTransportOptions::secure_defaults(),
            rate_limit: RateLimitPolicy::standard_only(),
            idempotency: IdempotencyPolicy::unknown(),
        };
        proof {
            assert(operation_views(r.provider_headers@) =~= Seq::<HeaderOperationView>::empty());
            assert(operation_views(r.model_headers@) =~= Seq::<HeaderOperationView>::empty());
            assert(keyed_map(r.model_capabilities@) =~= Map::<
                Seq<char>,
                (Seq<char>, CatalogCapabilities),
            >::empty());
            assert(keyed_map(r.model_compat@) =~= Map::<Seq<char>, CompatPatch>::empty());
        }
        r
    }

    /// Fixes the production HTTPS endpoint.
    pub fn with_endpoint(self, endpoint: EndpointConfig) -> (r: Self)
        ensures
            r@ == (DefinitionDraft { endpoint: Some(endpoint), ..self@ }),
    {
        proof {
            use_type_invariant(&self);
        }
        let mut b = self;
        b.endpoint = Some(endpoint);
        b
    }

    /// Fixes an explicit credential destination binding.
    pub fn with_credential_binding(self, binding: CredentialBinding) -> (r: Self)
        ensures
            r@ == (DefinitionDraft {
                credential_binding: Some(binding@),
                bind_to_endpoint_origin: false,
                ..self@
            }),
    {
        proof {
            use_type_invariant(&self);
        }
        let mut b = self;
        b.credential_binding = Some(binding);
        b.bind_to_endpoint_origin = false;
        b
    }

    /// Derives an exact HTTPS-origin binding from the fixed endpoint.
    pub fn bind_credential_to_endpoint_origin(self) -> (r: Self)
        ensures
            r@ == (DefinitionDraft {
                credential_binding: None,
                bind_to_endpoint_origin: true,
                ..self@
            }),
    {
        proof {
            use_type_invariant(&self);
        }
        let mut b = self;
        b.credential_binding = None;
        b.bind_to_endpoint_origin = true;
        b
    }

    /// Declares the authentication shape without storing credential material.
    pub fn with_auth_scheme(self, scheme: AuthScheme) -> (r: Self)
        ensures
            r@ == (DefinitionDraft { auth_scheme: Some(scheme@), ..self@ }),
    {
        proof {
            use_type_invariant(&self);
        }
        let mut b = self;
        b.auth_scheme = Some(scheme);
        b
    }

    /// Replaces the provider-owned Header operations.
    pub fn with_provider_headers(self, headers: Vec<HeaderOperation>) -> (r: Self)
        ensures
            r@ == (DefinitionDraft { provider_headers: operation_views(headers@), ..self@ }),
    {
        proof {
            use_type_invariant(&self);
        }
        let mut b = self;
        b.provider_headers = headers;
        b
    }

    /// Replaces the model-owned Header operations.
    pub fn with_model_headers(self, headers: Vec<HeaderOperation>) -> (r: Self)
        ensures
            r@ == (DefinitionDraft { model_headers: operation_views(headers@), ..self@ }),
    {
        proof {
            use_type_invariant(&self);
        }
        let mut b = self;
        b.model_headers = headers;
        b
    }

    /// Installs a controlled value-free dynamic header policy.
    pub fn with_dynamic_header_policy(self, policy: DynamicHeaderPolicy) -> (r: Self)
        ensures
            r@ == (DefinitionDraft { dynamic_header_policy: Some(policy@), ..self@ }),
    {
        proof {
            use_type_invariant(&self);
        }
        let mut b = self;
        b.dynamic_header_policy = Some(policy);
        b
    }

    /// Declares conservative provider-level capabilities explicitly.
    pub fn with_capabilities(self, capabilities: ProviderCapabilities) -> (r: Self)
        ensures
            r@ == (DefinitionDraft { capabilities: Some(capabilities), ..self@ }),
    {
        proof {
            use_type_invariant(&self);
        }
        let mut b = self;
        b.capabilities = Some(capabilities);
        b
    }

    /// Adds or replaces one exact-model capability declaration.
    pub fn with_model_capabilities(self, profile: ModelCapabilityProfile) -> (r: Self)
        ensures
            r@ == (DefinitionDraft {
                model_capabilities: self@.model_capabilities.insert(profile@.0, profile@),
                ..self@
            }),
    {
        proof {
            use_type_invariant(&self);
        }
        let ProviderDefinitionBuilder {
            provider_id,
            product_id,
            protocol_id,
            dialect,
            protocol_contract,
            endpoint,
            credential_binding,
            bind_to_endpoint_origin,
            auth_scheme,
            provider_headers,
            model_headers,
            dynamic_header_policy,
            capabilities,
            model_capabilities,
            catalog,
            allow_unregistered_models,
            provider_compat,
            model_compat,
            openrouter_routing,
            transport,
            rate_limit,
            idempotency,
        } = self;
        let mut model_capabilities = model_capabilities;
        let name = profile.model().as_str().to_owned();
        upsert(&mut model_capabilities, name, profile);
        ProviderDefinitionBuilder {
            provider_id,
            product_id,
            protocol_id,
            dialect,
            protocol_contract,
            endpoint,
            credential_binding,
            bind_to_endpoint_origin,
            auth_scheme,
            provider_headers,
            model_headers,
            dynamic_header_policy,
            capabilities,
            model_capabilities,
            catalog,
            allow_unregistered_models,
            provider_compat,
            model_compat,
            openrouter_routing,
            transport,
            rate_limit,
            idempotency,
        }
    }

    /// Installs an exact model catalog whose identities must match this definition.
    pub fn with_catalog(self, catalog: ModelCatalog) -> (r: Self)
        ensures
            r@ == (DefinitionDraft {
                catalog: Some(catalog),
                allow_unregistered_models: false,
                ..self@
            }),
    {
        proof {
            use_type_invariant(&self);
        }
        let mut b = self;
        b.catalog = Some(catalog);
        b.allow_unregistered_models = false;
        b
    }

    /// Explicitly permits models absent from a catalog.
    pub fn allow_unregistered_models(self) -> (r: Self)
        ensures
            r@ == (DefinitionDraft { catalog: None, allow_unregistered_models: true, ..self@ }),
    {
        proof {
            use_type_invariant(&self);
        }
        let mut b = self;
        b.catalog = None;
        b.allow_unregistered_models = true;
        b
    }

    /// Installs typed OpenAI-compatible provider deviations.
    pub fn with_provider_compat(self, compat: CompatPatch) -> (r: Self)
        ensures
            r@ == (DefinitionDraft { provider_compat: compat, ..self@ }),
    {
        proof {
            use_type_invariant(&self);
        }
        let mut b = self;
        b.provider_compat = compat;
        b
    }

    /// Adds typed OpenAI-compatible deviations for one exact model.
    pub fn with_model_compat(self, model: ModelId, compat: CompatPatch) -> (r: Self)
        ensures
            r@ == (DefinitionDraft { model_compat: self@.model_compat.insert(model@, compat), ..self@ }),
    {
        proof {
            use_type_invariant(&self);
        }
        let ProviderDefinitionBuilder {
            provider_id,
            product_id,
            protocol_id,
            dialect,
            protocol_contract,
            endpoint,
            credential_binding,
            bind_to_endpoint_origin,
            auth_scheme,
            provider_headers,
            model_headers,
            dynamic_header_policy,
            capabilities,
            model_capabilities,
            catalog,
            allow_unregistered_models,
            provider_compat,
            model_compat,
            openrouter_routing,
            transport,
            rate_limit,
            idempotency,
        } = self;
        let mut model_compat = model_compat;
        upsert(&mut model_compat, model.as_str().to_owned(), compat);
        ProviderDefinitionBuilder {
            provider_id,
            product_id,
            protocol_id,
            dialect,
            protocol_contract,
            endpoint,
            credential_binding,
            bind_to_endpoint_origin,
            auth_scheme,
            provider_headers,
            model_headers,
            dynamic_header_policy,
            capabilities,
            model_capabilities,
            catalog,
            allow_unregistered_models,
            provider_compat,
            model_compat,
            openrouter_routing,
            transport,
            rate_limit,
            idempotency,
        }
    }

    /// Installs the provider-scoped routing contract.
    pub fn with_openrouter_routing(self, contract: OpenRouterRoutingContract) -> (r: Self)
        ensures
            r@ == (DefinitionDraft { openrouter_routing: Some(contract), ..self@ }),
    {
        proof {
            use_type_invariant(&self);
        }
        let mut b = self;
        b.openrouter_routing = Some(contract);
        b
    }

    /// Replaces the transport safety options.
    pub fn with_transport_options(self, transport: ProviderTransportOptions) -> (r: Self)
        ensures
            r@ == (DefinitionDraft { transport, ..self@ }),
    {
        proof {
            use_type_invariant(&self);
        }
        let mut b = self;
        b.transport = transport;
        b
    }

    /// Replaces the typed rate-limit observation policy.
    pub fn with_rate_limit_policy(self, policy: RateLimitPolicy) -> (r: Self)
        ensures
            r@ == (DefinitionDraft { rate_limit: policy, ..self@ }),
    {
        proof {
            use_type_invariant(&self);
        }
        let mut b = self;
        b.rate_limit = policy;
        b
    }

    /// Replaces the typed idempotency policy.
    pub fn with_idempotency_policy(self, policy: IdempotencyPolicy) -> (r: Self)
        ensures
            r@ == (DefinitionDraft { idempotency: policy, ..self@ }),
    {
        proof {
            use_type_invariant(&self);
        }
        let mut b = self;
        b.idempotency = policy;
        b
    }

    /// Adds the protected Anthropic API version and removes beta opt-ins.
    pub fn with_anthropic_version(self, version: &str) -> (r: Result<Self, LlmError>)
        ensures
            !(self@.dialect == ProtocolDialect::AnthropicMessages && anthropic_version_ok(version@))
                ==> (r matches Err(e) && is_configuration(
                e,
                "invalid Anthropic API version declaration"@,
            )),
            self@.dialect == ProtocolDialect::AnthropicMessages && anthropic_version_ok(version@)
                ==> (r matches Ok(b) && b@ == (DefinitionDraft {
                provider_headers: without_anthropic_headers(self@.provider_headers).push(
                    HeaderOperationView::Assign("anthropic-version"@, encode_utf8(version@), false),
                ).push(HeaderOperationView::Remove("anthropic-beta"@)),
                ..self@
            })),
    {
        proof {
            use_type_invariant(&self);
        }
        let chars = crate::text::chars_of(version);
        if self.dialect != ProtocolDialect::AnthropicMessages || chars.len() == 0
            || utf8_len_exceeds(version, 64) {
            return Err(configuration("invalid Anthropic API version declaration"));
        }
        let mut i: usize = 0;
        while i < chars.len()
            invariant
                i <= chars@.len(),
                chars@ == version@,
                forall|k: int| 0 <= k < i ==> {
                    let c = #[trigger] chars@[k];
                    ('0' <= c && c <= '9') || c == '-'
                },
            decreases chars@.len() - i,
        {
            let c = chars[i];
            if !(('0' <= c && c <= '9') || c == '-') {
                return Err(configuration("invalid Anthropic API version declaration"));
            }
            i = i + 1;
        }
        proof {
            assert forall|k: int| 0 <= k < version@.len() implies #[trigger] crate::text::in_set(
                version@[k],
                crate::text::CharSet::HeaderValue,
            ) by {
                assert(chars@[k] == version@[k]);
            }
            super::headers::pipeline::lemma_header_text_bytes(version@);
        }
        let version_op = match HeaderOperation::set("anthropic-version", version.as_bytes()) {
            Ok(op) => op,
            Err(e) => {
                proof {
                    assert(false);
                }
                return Err(e);
            },
        };
        let mut b = self;
        let ghost all = operation_views(b.provider_headers@);
        let mut old_headers: Vec<HeaderOperation> = Vec::new();
        std::mem::swap(&mut old_headers, &mut b.provider_headers);
        let mut kept: Vec<HeaderOperation> = Vec::new();
        let mut j: usize = 0;
        while j < old_headers.len()
            invariant
                j <= old_headers@.len(),
                all == operation_views(old_headers@),
                operation_views(kept@) == without_anthropic_headers(all.take(j as int)),
            decreases old_headers@.len() - j,
        {
            let op = &old_headers[j];
            proof {
                assert(all.take(j + 1).drop_last() =~= all.take(j as int));
                assert(all.take(j + 1).last() == op@);
            }
            let name = op.name();
            proof {
                let pred = |o: HeaderOperationView|
                    operation_name(o) != "anthropic-version"@ && operation_name(o) != "anthropic-beta"@;
                assert(without_anthropic_headers(all.take(j + 1)) == all.take(j + 1).filter(pred));
                assert(all.take(j + 1) =~= all.take(j as int).push(op@));
                all.take(j as int).lemma_filter_push(op@, pred);
                assert(all.take(j + 1).filter(pred) == if pred(op@) {
                    all.take(j as int).filter(pred).push(op@)
                } else {
                    all.take(j as int).filter(pred)
                });
            }
            if !str_eq(name, "anthropic-version") && !str_eq(name, "anthropic-beta") {
                let ghost before = operation_views(kept@);
                kept.push(op.duplicate());
                proof {
                    assert(operation_views(kept@) =~= before.push(op@));
                }
            }
            j = j + 1;
        }
        proof {
            assert(all.take(old_headers@.len() as int) =~= all);
        }
        let ghost filtered = operation_views(kept@);
        kept.push(version_op);
        kept.push(HeaderOperation::remove("anthropic-beta"));
        proof {
            assert(operation_views(kept@) =~= filtered.push(
                HeaderOperationView::Assign("anthropic-version"@, encode_utf8(version@), false),
            ).push(HeaderOperationView::Remove("anthropic-beta"@)));
        }
        b.provider_headers = kept;
        Ok(b)
    }

    /// Selects reviewed Anthropic Messages usage snapshot compatibility.
    pub fn with_anthropic_usage_compat(self, usage: AnthropicUsageCompat) -> (r: Result<Self, LlmError>)
        ensures
            match self@.protocol_contract {
                ResolvedProtocolContract::AnthropicMessages(c) => r matches Ok(b) && b@ == (
                DefinitionDraft {
                    protocol_contract: ResolvedProtocolContract::AnthropicMessages(
                        super::protocol_contract::AnthropicMessagesContract { usage, ..c },
                    ),
                    ..self@
                }),
                _ => r matches Err(e) && is_configuration(
                    e,
                    "Anthropic usage compatibility requires an Anthropic Messages definition"@,
                ),
            },
    {
        proof {
            use_type_invariant(&self);
        }
        match self.protocol_contract {
            ResolvedProtocolContract::AnthropicMessages(c) => {
                let mut b = self;
                b.protocol_contract = ResolvedProtocolContract::AnthropicMessages(
                    c.with_usage_compat(usage),
                );
                Ok(b)
            },
            _ => Err(
                configuration(
                    "Anthropic usage compatibility requires an Anthropic Messages definition",
                ),
            ),
        }
    }
}

/// Mathematical form of a [`ProviderDefinition`].
pub struct DefinitionView {
    pub provider_id: Seq<char>,
    pub product_id: Seq<char>,
    pub protocol_id: Seq<char>,
    pub dialect: ProtocolDialect,
    pub protocol_contract: ResolvedProtocolContract,
    pub endpoint: EndpointConfig,
    pub credential_binding: BindingView,
    pub auth_scheme: AuthSchemeView,
    pub provider_headers: Seq<HeaderOperationView>,
    pub model_headers: Seq<HeaderOperationView>,
    pub dynamic_header_policy: Option<DynamicPolicyView>,
    pub capabilities: ProviderCapabilities,
    pub model_capabilities: Map<Seq<char>, (Seq<char>, CatalogCapabilities)>,
    pub catalog_entries: Seq<ModelEntry>,
    pub provider_compat: CompatPatch,
    pub model_compat: Map<Seq<char>, CompatPatch>,
    pub openrouter_routing: Option<OpenRouterRoutingContract>,
    pub transport: ProviderTransportOptions,
    pub rate_limit: RateLimitPolicy,
    pub idempotency: IdempotencyPolicy,
}

/// The definition a draft freezes into, with the credential binding it resolved.
pub open spec fn frozen(d: DefinitionDraft, binding: BindingView) -> DefinitionView {
    DefinitionView {
        provider_id: d.provider_id,
        product_id: d.product_id,
        protocol_id: d.protocol_id,
        dialect: d.dialect,
        protocol_contract: d.protocol_contract,
        endpoint: d.endpoint.unwrap(),
        credential_binding: binding,
        auth_scheme: d.auth_scheme.unwrap(),
        provider_headers: d.provider_headers,
        model_headers: d.model_headers,
        dynamic_header_policy: d.dynamic_header_policy,
        capabilities: d.capabilities.unwrap(),
        model_capabilities: d.model_capabilities,
        catalog_entries: catalog_choice(d).unwrap(),
        provider_compat: d.provider_compat,
        model_compat: d.model_compat,
        openrouter_routing: d.openrouter_routing,
        transport: d.transport,
        rate_limit: d.rate_limit,
        idempotency: d.idempotency,
    }
}

/// Trusted, secret-free declaration of one provider product and protocol.
pub struct ProviderDefinition {
    provider_id: ProviderId,
    product_id: ProductId,
    protocol_id: ProtocolId,
    dialect: ProtocolDialect,
    protocol_contract: ResolvedProtocolContract,
    endpoint: EndpointConfig,
    credential_binding: CredentialBinding,
    auth_scheme: AuthScheme,
    provider_headers: Vec<HeaderOperation>,
    model_headers: Vec<HeaderOperation>,
    dynamic_header_policy: Option<DynamicHeaderPolicy>,
    capabilities: ProviderCapabilities,
    model_capabilities: Vec<(String, ModelCapabilityProfile)>,
    catalog: ModelCatalog,
    provider_compat: CompatPatch,
    model_compat: Vec<(String, CompatPatch)>,
    openrouter_routing: Option<OpenRouterRoutingContract>,
    transport: ProviderTransportOptions,
    rate_limit: RateLimitPolicy,
    idempotency: IdempotencyPolicy,
}

impl View for ProviderDefinition {
    type V = DefinitionView;

    closed spec fn view(&self) -> DefinitionView {
        DefinitionView {
            provider_id: self.provider_id@,
            product_id: self.product_id@,
            protocol_id: self.protocol_id@,
            dialect: self.dialect,
            protocol_contract: self.protocol_contract,
            endpoint: self.endpoint,
            credential_binding: self.credential_binding@,
            auth_scheme: self.auth_scheme@,
            provider_headers: operation_views(self.provider_headers@),
            model_headers: operation_views(self.model_headers@),
            dynamic_header_policy: match self.dynamic_header_policy {
                Some(p) => Some(p@),
                None => None,
            },
            capabilities: self.capabilities,
            model_capabilities: keyed_map(self.model_capabilities@),
            catalog_entries: self.catalog.spec_entries(),
            provider_compat: self.provider_compat,
            model_compat: keyed_map(self.model_compat@),
            openrouter_routing: self.openrouter_routing,
            transport: self.transport,
            rate_limit: self.rate_limit,
            idempotency: self.idempotency,
        }
    }
}

fn event_stream_bytes() -> (r: Vec<u8>)
    ensures
        r@ == event_stream_media_type(),
{
    let r = vec![116u8, 101, 120, 116, 47, 101, 118, 101, 110, 116, 45, 115, 116, 114, 101, 97, 109];
    assert(r@ =~= event_stream_media_type());
    r
}

fn json_bytes() -> (r: Vec<u8>)
    ensures
        r@ == json_media_type(),
{
    let r = vec![97u8, 112, 112, 108, 105, 99, 97, 116, 105, 111, 110, 47, 106, 115, 111, 110];
    assert(r@ =~= json_media_type());
    r
}

fn checked_set(name: &str, bytes: &Vec<u8>) -> (r: HeaderOperation)
    requires
        super::headers::pipeline::valid_header_bytes(bytes@),
    ensures
        r@ == HeaderOperationView::Assign(name@, bytes@, false),
{
    match HeaderOperation::set(name, bytes.as_slice()) {
        Ok(op) => op,
        Err(_) => {
            proof {
                assert(false);
            }
            HeaderOperation::remove(name)
        },
    }
}

/// Checks that the protocol, provider and model layers keep to their own Headers.
fn validate_header_owners(
    auth_scheme: &AuthScheme,
    provider_headers: &Vec<HeaderOperation>,
    model_headers: &Vec<HeaderOperation>,
) -> (r: Result<(), LlmError>)
    ensures
        match layers_resolution(
            owner_policy(auth_scheme@, operation_views(provider_headers@)),
            owner_layers(operation_views(provider_headers@), operation_views(model_headers@)),
        ) {
            Ok(_) => r is Ok,
            Err(refusal) => r matches Err(e) && refused_as(e, refusal),
        },
{
    let ghost pv = operation_views(provider_headers@);
    let mut names: Vec<String> = Vec::new();
    let mut i: usize = 0;
    while i < provider_headers.len()
        invariant
            i <= provider_headers@.len(),
            pv == operation_views(provider_headers@),
            names@.len() == i,
            forall|k: int| 0 <= k < i ==> #[trigger] names@[k]@ == operation_name(pv[k]),
        decreases provider_headers@.len() - i,
    {
        names.push(provider_headers[i].name().to_owned());
        i = i + 1;
    }
    proof {
        assert(texts(names@) =~= pv.map_values(|op: HeaderOperationView| operation_name(op)));
    }
    let pipeline = HeaderPipeline::with_registered_headers(auth_scheme.protected_headers(), names);
    let json = json_bytes();
    let stream = event_stream_bytes();
    proof {
        assert(super::headers::pipeline::valid_header_bytes(json@));
        assert(super::headers::pipeline::valid_header_bytes(stream@));
    }
    let protocol = vec![checked_set("content-type", &json), checked_set("accept", &stream)];
    let layers = vec![
        HeaderLayer::new(HeaderSource::Protocol, protocol),
        HeaderLayer::new(HeaderSource::Provider, super::headers::pipeline::duplicate_operations(provider_headers)),
        HeaderLayer::new(HeaderSource::Model, super::headers::pipeline::duplicate_operations(model_headers)),
    ];
    proof {
        assert(operation_views(protocol@) =~= seq![
            HeaderOperationView::Assign("content-type"@, json_media_type(), false),
            HeaderOperationView::Assign("accept"@, event_stream_media_type(), false),
        ]);
        assert(super::headers::pipeline::layer_views(layers@) =~= owner_layers(
            operation_views(provider_headers@),
            operation_views(model_headers@),
        ));
    }
    match pipeline.resolve_without_auth_assumption(layers) {
        Ok(_) => Ok(()),
        Err(e) => Err(e),
    }
}

pub(crate) fn catalog_matches(
    catalog: &ModelCatalog,
    provider_id: &ProviderId,
    product_id: &ProductId,
    protocol_id: &ProtocolId,
) -> (r: bool)
    ensures
        r == !(exists|i: int|
            0 <= i < catalog.spec_entries().len() && {
                let e = #[trigger] catalog.spec_entries()[i]@;
                e.key.0 != provider_id@ || e.key.1 != product_id@ || e.protocol_id != protocol_id@
            }),
{
    let entries = catalog.entries();
    let mut i: usize = 0;
    while i < entries.len()
        invariant
            i <= entries@.len(),
            entries@ == catalog.spec_entries(),
            forall|k: int|
                0 <= k < i ==> {
                    let e = #[trigger] entries@[k]@;
                    !(e.key.0 != provider_id@ || e.key.1 != product_id@ || e.protocol_id
                        != protocol_id@)
                },
        decreases entries@.len() - i,
    {
        let e = &entries[i];
        if !str_eq(e.key.provider_id.as_str(), provider_id.as_str()) || !str_eq(
            e.key.product_id.as_str(),
            product_id.as_str(),
        ) || !str_eq(e.protocol_id.as_str(), protocol_id.as_str()) {
            proof {
                assert(entries@[i as int]@.key.0 != provider_id@ || entries@[i as int]@.key.1
                    != product_id@ || entries@[i as int]@.protocol_id != protocol_id@);
            }
            return false;
        }
        i = i + 1;
    }
    true
}

fn model_keys_match(model_capabilities: &Vec<(String, ModelCapabilityProfile)>) -> (r: bool)
    requires
        names_sorted(model_capabilities@),
    ensures
        r == !(exists|m: Seq<char>| #[trigger] keyed_map(model_capabilities@).contains_key(m)
            && keyed_map(model_capabilities@)[m].0 != m),
{
    let ghost map = keyed_map(model_capabilities@);
    let mut i: usize = 0;
    while i < model_capabilities.len()
        invariant
            i <= model_capabilities@.len(),
            names_sorted(model_capabilities@),
            map == keyed_map(model_capabilities@),
            forall|k: int| 0 <= k < i ==> #[trigger] model_capabilities@[k].0@ == model_capabilities@[k].1@.0,
        decreases model_capabilities@.len() - i,
    {
        let entry = &model_capabilities[i];
        if !str_eq(entry.0.as_str(), entry.1.model().as_str()) {
            proof {
                crate::keyed::lemma_keyed_entry(model_capabilities@, i as int);
                assert(map.contains_key(entry.0@) && map[entry.0@].0 != entry.0@);
            }
            return false;
        }
        i = i + 1;
    }
    proof {
        assert forall|m: Seq<char>| #[trigger] map.contains_key(m) implies map[m].0 == m by {
            let k = choose|k: int| crate::keyed::name_at(model_capabilities@, k, m);
            crate::keyed::lemma_keyed_entry(model_capabilities@, k);
        }
    }
    true
}

fn compat_is_clear(model_compat: &Vec<(String, CompatPatch)>) -> (r: bool)
    requires
        names_sorted(model_compat@),
    ensures
        r == !(exists|m: Seq<char>| #[trigger] keyed_map(model_compat@).contains_key(m)
            && !patch_is_empty(keyed_map(model_compat@)[m])),
{
    let ghost map = keyed_map(model_compat@);
    let mut i: usize = 0;
    while i < model_compat.len()
        invariant
            i <= model_compat@.len(),
            names_sorted(model_compat@),
            map == keyed_map(model_compat@),
            forall|k: int| 0 <= k < i ==> patch_is_empty(#[trigger] model_compat@[k].1),
        decreases model_compat@.len() - i,
    {
        if !model_compat[i].1.is_empty() {
            proof {
                crate::keyed::lemma_keyed_entry(model_compat@, i as int);
                assert(map.contains_key(model_compat@[i as int].0@));
            }
            return false;
        }
        i = i + 1;
    }
    proof {
        assert forall|m: Seq<char>| #[trigger] map.contains_key(m) implies patch_is_empty(map[m]) by {
            let k = choose|k: int| crate::keyed::name_at(model_compat@, k, m);
            crate::keyed::lemma_keyed_entry(model_compat@, k);
        }
    }
    true
}

fn declares_version(ops: &Vec<HeaderOperation>) -> (r: bool)
    ensures
        r == declares_anthropic_version(operation_views(ops@)),
{
    let mut i: usize = 0;
    while i < ops.len()
        invariant
            i <= ops@.len(),
            forall|k: int| 0 <= k < i ==> operation_name(#[trigger] operation_views(ops@)[k]) != "anthropic-version"@,
        decreases ops@.len() - i,
    {
        proof {
            assert(operation_views(ops@)[i as int] == ops@[i as int]@);
        }
        if str_eq(ops[i].name(), "anthropic-version") {
            return true;
        }
        i = i + 1;
    }
    false
}

impl ProviderDefinitionBuilder {
    /// Validates and freezes this secret-free definition; every missing or conflicting
    /// declaration is refused, in a fixed order.
    pub fn build(self) -> (r: Result<ProviderDefinition, LlmError>)
        ensures
            match definition_outcome(self@) {
                Err(refusal) => r matches Err(e) && refusal_reported(e, refusal),
                Ok(binding) => r matches Ok(d) && d@ == frozen(self@, binding),
            },
    {
        proof {
            use_type_invariant(&self);
        }
        let ghost draft = self@;
        if !self.protocol_contract.matches_dialect(self.dialect) {
            return Err(configuration("protocol dialect does not match resolved protocol contract"));
        }
        let ProviderDefinitionBuilder {
            provider_id,
            product_id,
            protocol_id,
            dialect,
            protocol_contract,
            endpoint,
            credential_binding,
            bind_to_endpoint_origin,
            auth_scheme,
            provider_headers,
            model_headers,
            dynamic_header_policy,
            capabilities,
            model_capabilities,
            catalog,
            allow_unregistered_models,
            provider_compat,
            model_compat,
            openrouter_routing,
            transport,
            rate_limit,
            idempotency,
        } = self;
        let endpoint = match endpoint {
            Some(e) => e,
            None => return Err(configuration("provider definition requires an endpoint")),
        };
        let auth_scheme = match auth_scheme {
            Some(a) => a,
            None => return Err(configuration("provider definition requires an auth scheme")),
        };
        let capabilities = match capabilities {
            Some(c) => c,
            None => return Err(configuration("provider definition requires capabilities")),
        };
        capabilities.validate()?;
        let catalog = match (catalog, allow_unregistered_models) {
            (Some(c), false) => c,
            (None, true) => ModelCatalog::default(),
            _ => {
                return Err(
                    configuration(
                        "provider definition requires a catalog or explicit unregistered-model policy",
                    ),
                );
            },
        };
        assert(catalog.spec_entries() == catalog_choice(draft).unwrap());
        if !catalog_matches(&catalog, &provider_id, &product_id, &protocol_id) {
            return Err(configuration("catalog entry does not match provider product protocol"));
        }
        if !model_keys_match(&model_capabilities) {
            return Err(configuration("model capability map key does not match its declaration"));
        }
        if dialect == ProtocolDialect::AnthropicMessages && (!provider_compat.is_empty()
            || !compat_is_clear(&model_compat) || openrouter_routing.is_some()) {
            return Err(
                configuration("Anthropic Messages definitions cannot carry OpenAI compatibility policy"),
            );
        }
        validate_header_owners(&auth_scheme, &provider_headers, &model_headers)?;
        if dialect == ProtocolDialect::AnthropicMessages && !declares_version(&provider_headers) {
            return Err(
                configuration(
                    "Anthropic Messages definition requires a protected anthropic-version header",
                ),
            );
        }
        let resolved = if endpoint.requires_mapping() {
            let entries = catalog.entries();
            if entries.len() == 0 {
                return Err(configuration("endpoint template variables require an exact catalog entry"));
            }
            let mapping = ResolvedModelMapping::from_entry(&entries[0]);
            super::endpoint::config::resolve_official_for(&endpoint, mapping.endpoint_values())?
        } else {
            super::endpoint::config::resolve_official(&endpoint)?
        };
        let credential_binding = if bind_to_endpoint_origin {
            CredentialBinding::exact_https_origin(&resolved)?
        } else {
            match credential_binding {
                Some(b) => b,
                None => return Err(configuration("provider definition requires a credential binding")),
            }
        };
        credential_binding.validate(&resolved)?;
        Ok(
            ProviderDefinition {
                provider_id,
                product_id,
                protocol_id,
                dialect,
                protocol_contract,
                endpoint,
                credential_binding,
                auth_scheme,
                provider_headers,
                model_headers,
                dynamic_header_policy,
                capabilities,
                model_capabilities,
                catalog,
                provider_compat,
                model_compat,
                openrouter_routing,
                transport,
                rate_limit,
                idempotency,
            },
        )
    }
}

fn static_protocol_id(openai: bool) -> (r: ProtocolId)
    ensures
        r@ == if openai {
            "openai-chat-completions"@
        } else {
            "anthropic-messages"@
        },
{
    if openai {
        proof {
            reveal_strlit("openai-chat-completions");
            lemma_utf8_len_bound("openai-chat-completions"@);
            assert(identifier_rejection("openai-chat-completions"@) is None);
        }
        ProtocolId::new("openai-chat-completions").unwrap()
    } else {
        proof {
            reveal_strlit("anthropic-messages");
            lemma_utf8_len_bound("anthropic-messages"@);
            assert(identifier_rejection("anthropic-messages"@) is None);
        }
        ProtocolId::new("anthropic-messages").unwrap()
    }
}

impl ProviderDefinition {
    /// Starts a definition for the `OpenAI` Chat Completions protocol.
    pub fn openai_chat(provider_id: ProviderId, product_id: ProductId) -> (r:
        ProviderDefinitionBuilder)
        ensures
            r@ == fresh_draft(
                provider_id@,
                product_id@,
                "openai-chat-completions"@,
                ProtocolDialect::OpenAiChatCompletions,
                r@.protocol_contract,
                r@.transport,
                r@.rate_limit,
                r@.idempotency,
            ),
            r@.protocol_contract matches ResolvedProtocolContract::OpenAiChat(c) && c.spec_compat().spec_request()
                == super::protocol_contract::request::request_defaults() && c.spec_compat().spec_response()
                == super::protocol_contract::response::response_defaults() && c.spec_compat().spec_history()
                == super::protocol_contract::history::history_defaults(),
            r@.transport.spec_redirect_policy() == RedirectPolicy::Disabled,
            r@.idempotency.spec_capability() == IdempotencyCapability::Unknown,
            r@.rate_limit.spec_headers() == Seq::<(Seq<char>, RateLimitHeaderKind)>::empty(),
    {
        ProviderDefinitionBuilder::new(
            provider_id,
            product_id,
            static_protocol_id(true),
            ProtocolDialect::OpenAiChatCompletions,
            ResolvedProtocolContract::strict_openai_chat(),
        )
    }

    /// Starts a definition for the Anthropic Messages protocol.
    pub fn anthropic_messages(provider_id: ProviderId, product_id: ProductId) -> (r:
        ProviderDefinitionBuilder)
        ensures
            r@ == fresh_draft(
                provider_id@,
                product_id@,
                "anthropic-messages"@,
                ProtocolDialect::AnthropicMessages,
                ResolvedProtocolContract::AnthropicMessages(
                    super::protocol_contract::contract::strict_official_anthropic(),
                ),
                r@.transport,
                r@.rate_limit,
                r@.idempotency,
            ),
            r@.transport.spec_redirect_policy() == RedirectPolicy::Disabled,
            r@.idempotency.spec_capability() == IdempotencyCapability::Unknown,
            r@.rate_limit.spec_headers() == Seq::<(Seq<char>, RateLimitHeaderKind)>::empty(),
    {
        ProviderDefinitionBuilder::new(
            provider_id,
            product_id,
            static_protocol_id(false),
            ProtocolDialect::AnthropicMessages,
            ResolvedProtocolContract::strict_anthropic_messages(),
        )
    }

    /// Returns the fixed provider identity.
    pub fn provider_id(&self) -> (r: &ProviderId)
        ensures
            r@ == self@.provider_id,
    {
        &self.provider_id
    }

    /// Returns the fixed product identity.
    pub fn product_id(&self) -> (r: &ProductId)
        ensures
            r@ == self@.product_id,
    {
        &self.product_id
    }

    /// Returns the explicitly selected protocol identity.
    pub fn protocol_id(&self) -> (r: &ProtocolId)
        ensures
            r@ == self@.protocol_id,
    {
        &self.protocol_id
    }

    /// Returns the endpoint-bound credential restriction.
    pub fn credential_binding(&self) -> (r: &CredentialBinding)
        ensures
            r@ == self@.credential_binding,
    {
        &self.credential_binding
    }

    /// Returns the endpoint configuration.
    pub fn endpoint(&self) -> (r: &EndpointConfig)
        ensures
            *r == self@.endpoint,
    {
        &self.endpoint
    }

    /// Returns the resolved protocol contract.
    pub fn protocol_contract(&self) -> (r: &ResolvedProtocolContract)
        ensures
            *r == self@.protocol_contract,
    {
        &self.protocol_contract
    }

    /// Returns the protocol dialect.
    pub fn dialect(&self) -> (r: ProtocolDialect)
        ensures
            r == self@.dialect,
    {
        self.dialect
    }

    /// Returns the authentication shape.
    pub fn auth_scheme(&self) -> (r: &AuthScheme)
        ensures
            r@ == self@.auth_scheme,
    {
        &self.auth_scheme
    }

    /// Returns the provider-owned header operations.
    pub fn provider_headers(&self) -> (r: &Vec<HeaderOperation>)
        ensures
            operation_views(r@) == self@.provider_headers,
    {
        &self.provider_headers
    }

    /// Returns the model-owned header operations.
    pub fn model_headers(&self) -> (r: &Vec<HeaderOperation>)
        ensures
            operation_views(r@) == self@.model_headers,
    {
        &self.model_headers
    }

    /// Returns the provider-level capabilities.
    pub fn capabilities(&self) -> (r: ProviderCapabilities)
        ensures
            r == self@.capabilities,
    {
        self.capabilities
    }

    /// Returns the exact model catalog.
    pub fn catalog(&self) -> (r: &ModelCatalog)
        ensures
            r.spec_entries() == self@.catalog_entries,
    {
        &self.catalog
    }

    /// Checks that a deployment's authentication matches the definition: the same kind, the
    /// same set of protected headers, and the definition's binding (a deployment without a
    /// binding is accepted only for an unauthenticated definition).
    pub fn check_deployment_auth(
        &self,
        kind: AuthSchemeKind,
        protected_headers: &Vec<String>,
        binding: Option<&CredentialBinding>,
    ) -> (r: Result<(), LlmError>)
        ensures
            match deployment_auth_refusal(self@, kind, texts(protected_headers@), match binding {
                Some(b) => Some(b@),
                None => None,
            }) {
                None => r is Ok,
                Some(message) => r matches Err(e) && is_configuration(e, message),
            },
    {
        if kind != self.auth_scheme.kind() {
            return Err(
                configuration("deployment authentication scheme does not match provider definition"),
            );
        }
        let expected = self.auth_scheme.protected_headers();
        if !same_name_set(protected_headers, &expected) {
            return Err(
                configuration("deployment authentication headers do not match provider definition"),
            );
        }
        match binding {
            None => {
                let unauthenticated = match &self.auth_scheme.0 {
                    AuthSchemeInner::Unauthenticated => true,
                    _ => false,
                };
                if !unauthenticated {
                    return Err(
                        configuration(
                            "credential-bearing deployment must expose its destination binding",
                        ),
                    );
                }
                Ok(())
            },
            Some(b) => {
                if !b.same_as(&self.credential_binding) {
                    return Err(
                        configuration(
                            "deployment credential binding does not match provider definition",
                        ),
                    );
                }
                Ok(())
            },
        }
    }
}

/// Why a deployment's authentication does not match a definition, or `None`.
pub open spec fn deployment_auth_refusal(
    d: DefinitionView,
    kind: AuthSchemeKind,
    headers: Seq<Seq<char>>,
    binding: Option<BindingView>,
) -> Option<Seq<char>> {
    if kind != scheme_kind_of(d.auth_scheme) {
        Some("deployment authentication scheme does not match provider definition"@)
    } else if headers.to_set() != scheme_headers_of(d.auth_scheme).to_set() {
        Some("deployment authentication headers do not match provider definition"@)
    } else {
        match binding {
            None => if d.auth_scheme is Unauthenticated {
                None
            } else {
                Some("credential-bearing deployment must expose its destination binding"@)
            },
            Some(b) => if b == d.credential_binding {
                None
            } else {
                Some("deployment credential binding does not match provider definition"@)
            },
        }
    }
}

fn contains_text(names: &Vec<String>, name: &str) -> (r: bool)
    ensures
        r == texts(names@).contains(name@),
{
    let mut i: usize = 0;
    while i < names.len()
        invariant
            i <= names@.len(),
            forall|k: int| 0 <= k < i ==> #[trigger] names@[k]@ != name@,
        decreases names@.len() - i,
    {
        if str_eq(names[i].as_str(), name) {
            proof {
                assert(texts(names@)[i as int] == name@);
            }
            return true;
        }
        i = i + 1;
    }
    proof {
        if texts(names@).contains(name@) {
            let k = choose|k: int| 0 <= k < texts(names@).len() && texts(names@)[k] == name@;
            assert(names@[k]@ == name@);
        }
    }
    false
}

fn all_contained(names: &Vec<String>, others: &Vec<String>) -> (r: bool)
    ensures
        r == (forall|t: Seq<char>| texts(names@).contains(t) ==> texts(others@).contains(t)),
{
    let mut i: usize = 0;
    while i < names.len()
        invariant
            i <= names@.len(),
            forall|k: int| 0 <= k < i ==> texts(others@).contains(#[trigger] names@[k]@),
        decreases names@.len() - i,
    {
        if !contains_text(others, names[i].as_str()) {
            proof {
                assert(texts(names@)[i as int] == names@[i as int]@);
            }
            return false;
        }
        i = i + 1;
    }
    proof {
        assert forall|t: Seq<char>| texts(names@).contains(t) implies texts(others@).contains(t) by {
            let k = choose|k: int| 0 <= k < texts(names@).len() && texts(names@)[k] == t;
            assert(names@[k]@ == t);
        }
    }
    true
}

fn same_name_set(a: &Vec<String>, b: &Vec<String>) -> (r: bool)
    ensures
        r == (texts(a@).to_set() == texts(b@).to_set()),
{
    let r = all_contained(a, b) && all_contained(b, a);
    proof {
        if r {
            assert(texts(a@).to_set() =~= texts(b@).to_set());
        } else if texts(a@).to_set() == texts(b@).to_set() {
            assert forall|t: Seq<char>| texts(a@).contains(t) implies texts(b@).contains(t) by {
                assert(texts(a@).to_set().contains(t));
            }
            assert forall|t: Seq<char>| texts(b@).contains(t) implies texts(a@).contains(t) by {
                assert(texts(b@).to_set().contains(t));
            }
        }
    }
    r
}

/// A built definition is internally consistent: its credential binding permits the endpoint
/// it resolved, its Header owners never conflict, and an Anthropic Messages definition
/// declares its API version and carries no OpenAI compatibility policy.
pub proof fn lemma_built_definition_is_consistent(d: DefinitionDraft)
    ensures
        definition_outcome(d) matches Ok(b) ==> {
            &&& definition_resolution(d.endpoint.unwrap(), catalog_choice(d).unwrap()) matches Ok(
                (parts, origin),
            ) && binding_permits(b, origin, parts.0.path)
            &&& layers_resolution(
                owner_policy(d.auth_scheme.unwrap(), d.provider_headers),
                owner_layers(d.provider_headers, d.model_headers),
            ) is Ok
            &&& d.dialect == ProtocolDialect::AnthropicMessages ==> declares_anthropic_version(
                d.provider_headers,
            ) && !anthropic_compat_conflict(d)
            &&& contract_matches(d.protocol_contract, d.dialect)
        },
{
}

/// The authentication a resolved deployment key becomes under a definition.
pub enum ReferenceAuth {
    /// A bearer credential bound to the definition's destination.
    Bearer(BearerAuth),
    /// The definition's API-key header, bound to its destination.
    ApiKeyHeader(ApiKeyHeaderAuth),
}

/// `r` is the authentication that the key `key` becomes under a definition whose
/// authentication shape is `scheme` and whose destination is `binding`.
pub open spec fn reference_auth_result(
    scheme: AuthSchemeView,
    binding: BindingView,
    key: Seq<char>,
    r: Result<ReferenceAuth, LlmError>,
) -> bool {
    match scheme {
        AuthSchemeView::Bearer => r matches Ok(ReferenceAuth::Bearer(a)) && a.spec_key() == key
            && a.spec_binding() == binding,
        AuthSchemeView::ApiKeyHeader(name) => if auth_name_rejected(name) {
            r matches Err(e) && auth_name_refused(e)
        } else {
            r matches Ok(ReferenceAuth::ApiKeyHeader(a)) && a.spec_name() == name && a.spec_key() == key
                && a.spec_binding() == binding
        },
        AuthSchemeView::Custom(_, _) => r matches Err(e) && is_configuration(
            e,
            "custom authentication requires a deployment auth provider"@,
        ),
        AuthSchemeView::Unauthenticated => r matches Err(e) && is_configuration(
            e,
            "credential reference cannot be used with unauthenticated definition"@,
        ),
    }
}

impl ProviderDefinition {
    /// Turns a deployment's resolved key into the authentication the definition declares,
    /// bound to the definition's destination; a custom or unauthenticated definition
    /// cannot take a key.
    pub fn reference_auth(&self, key: ApiKey) -> (r: Result<ReferenceAuth, LlmError>)
        ensures
            reference_auth_result(self@.auth_scheme, self@.credential_binding, key.spec_value(), r),
    {
        match &self.auth_scheme.0 {
            AuthSchemeInner::Bearer => Ok(
                ReferenceAuth::Bearer(
                    BearerAuth::new(BearerCredential::new(key, self.credential_binding.clone())),
                ),
            ),
            AuthSchemeInner::ApiKeyHeader(name) => {
                let auth = ApiKeyHeaderAuth::new(name.as_str(), key, self.credential_binding.clone())?;
                Ok(ReferenceAuth::ApiKeyHeader(auth))
            },
            AuthSchemeInner::Custom { .. } => Err(
                configuration("custom authentication requires a deployment auth provider"),
            ),
            AuthSchemeInner::Unauthenticated => Err(
                configuration("credential reference cannot be used with unauthenticated definition"),
            ),
        }
    }

    /// Checks that a deployment without authentication may run this definition: only an
    /// unauthenticated definition accepts one.
    pub fn check_without_auth(&self) -> (r: Result<(), LlmError>)
        ensures
            self@.auth_scheme is Unauthenticated ==> r is Ok,
            !(self@.auth_scheme is Unauthenticated) ==> (r matches Err(e) && is_configuration(
                e,
                "credential-bearing definition requires deployment authentication"@,
            )),
    {
        match &self.auth_scheme.0 {
            AuthSchemeInner::Unauthenticated => Ok(()),
            _ => Err(configuration("credential-bearing definition requires deployment authentication")),
        }
    }
}

} // verus!
