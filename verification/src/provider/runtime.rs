//! The checks that freeze a definition and a deployment into a runnable provider: the
//! deployment must belong to the definition, and the profile's parts must agree with one
//! another and with the endpoint the credential is bound to.

use vstd::prelude::*;

use crate::domain::{CapabilityStatus, ModelId, ProtocolId, ProviderId};
use crate::error::{configuration, is_configuration, is_validation, validation, LlmError, ValidationReason};
use crate::provider::auth::AuthSchemeKind;
use crate::provider::capability::{
    with_model_facts, ModelCapabilityProfile, ProtocolDialect, ProviderCapabilities,
};
use crate::provider::catalog::entry::{CatalogCapabilities, ModelEntry, ModelEntryView, ModelKey, ModelKeyView};
use crate::provider::catalog::ids::ProductId;
use crate::provider::catalog::merge::ModelCatalog;
use crate::provider::definition::{
    catalog_matches, deployment_auth_refusal, entry_values, needs_mapping, ProviderDefinition,
};
use crate::provider::endpoint::audience::{binding_permits, BindingView, CredentialBinding};
use crate::provider::endpoint::config::{resolution_of, resolution_reported, EndpointConfig, ResolvedParts};
use crate::provider::endpoint::mapping::ResolvedModelMapping;
use crate::provider::endpoint::origin::{OriginView, ResolvedEndpoint};
use crate::provider::endpoint::policy::EndpointMode;
use crate::provider::headers::pipeline::{
    json_media_type, layer_views, layers_resolution, media_type_is_json, operation_views, refused_as,
    texts, HeaderLayer, HeaderOperation, HeaderOperationView, HeaderPipeline, ResolvedHeaders,
};
use crate::provider::headers::HeaderSource;
use crate::provider::protocol_contract::binding::binding_kind;
use crate::provider::protocol_contract::contract::{contract_matches, ResolvedProtocolContract};
use crate::provider::protocol_contract::profile::compat_conflict;
use crate::text::str_eq;

verus! {

/// Why a deployment cannot be compiled against a definition, or `None`: it must name the
/// definition's provider, bring authentication that matches the definition, and allow a
/// positive HTTP error body.
pub open spec fn deployment_refusal(
    d: crate::provider::definition::DefinitionView,
    deployment_provider: Seq<char>,
    kind: AuthSchemeKind,
    headers: Seq<Seq<char>>,
    binding: Option<BindingView>,
    max_http_error_body_bytes: usize,
) -> Option<Seq<char>> {
    if deployment_provider != d.provider_id {
        Some("deployment provider identity does not match provider definition"@)
    } else if deployment_auth_refusal(d, kind, headers, binding) is Some {
        deployment_auth_refusal(d, kind, headers, binding)
    } else if max_http_error_body_bytes == 0 {
        Some("HTTP error body limit must be positive"@)
    } else {
        None
    }
}

impl ProviderDefinition {
    /// Checks a deployment against this definition: its provider first, then its
    /// authentication, then its HTTP error body limit.
    pub fn check_deployment(
        &self,
        deployment_provider: &ProviderId,
        kind: AuthSchemeKind,
        protected_headers: &Vec<String>,
        binding: Option<&CredentialBinding>,
        max_http_error_body_bytes: usize,
    ) -> (r: Result<(), LlmError>)
        ensures
            match deployment_refusal(
                self@,
                deployment_provider@,
                kind,
                texts(protected_headers@),
                match binding {
                    Some(b) => Some(b@),
                    None => None,
                },
                max_http_error_body_bytes,
            ) {
                None => r is Ok,
                Some(message) => r matches Err(e) && is_configuration(e, message),
            },
    {
        if !str_eq(deployment_provider.as_str(), self.provider_id().as_str()) {
            return Err(configuration("deployment provider identity does not match provider definition"));
        }
        self.check_deployment_auth(kind, protected_headers, binding)?;
        if max_http_error_body_bytes == 0 {
            return Err(configuration("HTTP error body limit must be positive"));
        }
        Ok(())
    }
}

/// The endpoint mode a profile resolves under.
pub open spec fn mode_of(test_only: bool) -> EndpointMode {
    if test_only {
        EndpointMode::TestOnly
    } else {
        EndpointMode::Production
    }
}

/// A model-capability declaration as the key it is filed under and the declaration.
pub type DeclarationView = (Seq<char>, (Seq<char>, CatalogCapabilities));

/// The views of model-capability declarations.
pub open spec fn declaration_views(decls: Seq<(ModelId, ModelCapabilityProfile)>) -> Seq<DeclarationView> {
    decls.map_values(|d: (ModelId, ModelCapabilityProfile)| (d.0@, d.1@))
}

/// The views of model protocol contracts.
pub open spec fn contract_views(contracts: Seq<(ModelId, ResolvedProtocolContract)>) -> Seq<
    (Seq<char>, ResolvedProtocolContract),
> {
    contracts.map_values(|c: (ModelId, ResolvedProtocolContract)| (c.0@, c.1))
}

/// The capabilities of the first declaration filed under `model`, if any.
pub open spec fn declared_for(decls: Seq<DeclarationView>, model: Seq<char>) -> Option<CatalogCapabilities>
    decreases decls.len(),
{
    if decls.len() == 0 {
        None
    } else if decls[0].0 == model {
        Some(decls[0].1.1)
    } else {
        declared_for(decls.drop_first(), model)
    }
}

/// The capabilities one model runs under: the provider's, with the model's catalog facts
/// and then its declared facts in place of the provider's model-level facts.
pub open spec fn capabilities_for(
    caps: ProviderCapabilities,
    catalog: Map<ModelKeyView, ModelEntryView>,
    provider: Seq<char>,
    product: Seq<char>,
    decls: Seq<DeclarationView>,
    model: Seq<char>,
) -> ProviderCapabilities {
    let with_catalog = if catalog.contains_key((provider, product, model)) {
        with_model_facts(caps, catalog[(provider, product, model)].capabilities)
    } else {
        caps
    };
    match declared_for(decls, model) {
        Some(d) => with_model_facts(with_catalog, d),
        None => with_catalog,
    }
}

/// Why a contract contradicts the capabilities it runs under, or `None`.
pub open spec fn contract_conflict(c: ResolvedProtocolContract, caps: ProviderCapabilities) -> Option<Seq<char>> {
    match c {
        ResolvedProtocolContract::OpenAiChat(o) => compat_conflict(o.spec_compat(), caps),
        ResolvedProtocolContract::AnthropicMessages(_) => None,
    }
}

/// The first model contract that contradicts its model's capabilities, by its message.
pub open spec fn first_model_conflict(
    contracts: Seq<(Seq<char>, ResolvedProtocolContract)>,
    caps: ProviderCapabilities,
    catalog: Map<ModelKeyView, ModelEntryView>,
    provider: Seq<char>,
    product: Seq<char>,
    decls: Seq<DeclarationView>,
) -> Option<Seq<char>>
    decreases contracts.len(),
{
    if contracts.len() == 0 {
        None
    } else {
        match contract_conflict(
            contracts[0].1,
            capabilities_for(caps, catalog, provider, product, decls, contracts[0].0),
        ) {
            Some(m) => Some(m),
            None => first_model_conflict(contracts.drop_first(), caps, catalog, provider, product, decls),
        }
    }
}

/// How a profile's endpoint resolves under its mode: with the first catalog entry's values
/// when the endpoint has template variables.
pub open spec fn profile_resolution(endpoint: EndpointConfig, mode: EndpointMode, entries: Seq<ModelEntry>) -> Result<
    (ResolvedParts, OriginView),
    Seq<char>,
> {
    if needs_mapping(endpoint) {
        if entries.len() == 0 {
            Err("endpoint template variables require an exact catalog entry"@)
        } else {
            resolution_of(endpoint, mode, Some(entry_values(entries[0])))
        }
    } else {
        resolution_of(endpoint, mode, None)
    }
}

/// Why the credential binding, or the authentication's own binding, refuses a resolved
/// endpoint, or `None`.
pub open spec fn binding_problem(
    path: Seq<char>,
    origin: OriginView,
    binding: BindingView,
    auth_binding: Option<BindingView>,
) -> Option<Seq<char>> {
    if !binding_permits(binding, origin, path) {
        Some("credential binding does not match endpoint origin"@)
    } else if auth_binding matches Some(ab) && !binding_permits(ab, origin, path) {
        Some("credential binding does not match endpoint origin"@)
    } else {
        None
    }
}

/// Why the endpoint mapped for one catalog entry is refused, or `None`.
pub open spec fn entry_problem(
    endpoint: EndpointConfig,
    mode: EndpointMode,
    entry: ModelEntry,
    binding: BindingView,
    auth_binding: Option<BindingView>,
) -> Option<Seq<char>> {
    match resolution_of(endpoint, mode, Some(entry_values(entry))) {
        Err(m) => Some(m),
        Ok((parts, origin)) => binding_problem(parts.0.path, origin, binding, auth_binding),
    }
}

/// The first catalog entry whose mapped endpoint is refused, by its message.
pub open spec fn first_entry_problem(
    endpoint: EndpointConfig,
    mode: EndpointMode,
    entries: Seq<ModelEntry>,
    binding: BindingView,
    auth_binding: Option<BindingView>,
) -> Option<Seq<char>>
    decreases entries.len(),
{
    if entries.len() == 0 {
        None
    } else {
        match entry_problem(endpoint, mode, entries[0], binding, auth_binding) {
            Some(m) => Some(m),
            None => first_entry_problem(endpoint, mode, entries.drop_first(), binding, auth_binding),
        }
    }
}

/// The identity, capability and protocol parts of a profile.
pub struct ProfileCore {
    pub provider: Seq<char>,
    pub product: Seq<char>,
    pub protocol: Seq<char>,
    pub dialect: ProtocolDialect,
    pub contract: ResolvedProtocolContract,
    pub capabilities: ProviderCapabilities,
    pub declarations: Seq<DeclarationView>,
    pub model_contracts: Seq<(Seq<char>, ResolvedProtocolContract)>,
    pub max_http_error_body_bytes: usize,
}

/// The first reason the identity, capability and protocol parts of a profile disagree,
/// in the order they are checked, or `None`.
pub open spec fn core_rejection(
    core: ProfileCore,
    entries: Seq<ModelEntry>,
    catalog: Map<ModelKeyView, ModelEntryView>,
) -> Option<Seq<char>> {
    if core.max_http_error_body_bytes == 0 {
        Some("HTTP error body limit must be positive"@)
    } else if core.capabilities.streaming != CapabilityStatus::Supported {
        Some("profile must declare streaming support"@)
    } else if core.capabilities.streaming_usage != CapabilityStatus::Supported {
        Some("profile must declare streaming usage support"@)
    } else if exists|i: int|
        0 <= i < core.declarations.len() && #[trigger] core.declarations[i].0 != core.declarations[i].1.0 {
        Some("model capability map key does not match its declaration"@)
    } else if binding_kind(core.protocol, core.dialect, core.contract) is None {
        Some("protocol id, dialect, and contract do not form a supported binding"@)
    } else if exists|i: int|
        0 <= i < entries.len() && {
            let e = #[trigger] entries[i]@;
            e.key.0 != core.provider || e.key.1 != core.product || e.protocol_id != core.protocol
        } {
        Some("catalog entry does not match provider product protocol"@)
    } else if exists|i: int|
        0 <= i < core.model_contracts.len() && !contract_matches(
            #[trigger] core.model_contracts[i].1,
            core.dialect,
        ) {
        Some("model protocol contract does not match the provider protocol binding"@)
    } else if core.dialect == ProtocolDialect::AnthropicMessages && core.model_contracts.len() > 0 {
        Some("Anthropic Messages profiles cannot carry OpenAI compatibility policy"@)
    } else if contract_conflict(core.contract, core.capabilities) is Some {
        contract_conflict(core.contract, core.capabilities)
    } else {
        first_model_conflict(
            core.model_contracts,
            core.capabilities,
            catalog,
            core.provider,
            core.product,
            core.declarations,
        )
    }
}

/// The first reason a profile cannot run, in the order the checks are made, or `None`:
/// its parts must agree, its endpoint must resolve under its mode, the credential binding
/// and the authentication's binding must permit it and be the same binding, and every
/// catalog entry's mapped endpoint must be permitted too.
pub open spec fn profile_rejection(
    core: ProfileCore,
    entries: Seq<ModelEntry>,
    catalog: Map<ModelKeyView, ModelEntryView>,
    endpoint: EndpointConfig,
    test_only: bool,
    binding: BindingView,
    auth_kind: AuthSchemeKind,
    auth_binding: Option<BindingView>,
) -> Option<Seq<char>> {
    if core_rejection(core, entries, catalog) is Some {
        core_rejection(core, entries, catalog)
    } else {
        match profile_resolution(endpoint, mode_of(test_only), entries) {
            Err(m) => Some(m),
            Ok((parts, origin)) => if binding_problem(parts.0.path, origin, binding, auth_binding) is Some {
                binding_problem(parts.0.path, origin, binding, auth_binding)
            } else if auth_binding matches Some(ab) && ab != binding {
                Some("authentication binding does not match provider credential binding"@)
            } else if auth_binding is None && auth_kind != AuthSchemeKind::Unauthenticated {
                Some("credential-bearing authentication must expose its destination binding"@)
            } else {
                first_entry_problem(endpoint, mode_of(test_only), entries, binding, auth_binding)
            },
        }
    }
}

/// A profile that passes its checks keeps its credentials at their destination: its
/// endpoint resolves under its mode to an origin and path that the credential binding
/// permits, an authentication that exposes a binding exposes that same binding, and only
/// unauthenticated access exposes none.
pub proof fn lemma_accepted_profile_is_bound(
    core: ProfileCore,
    entries: Seq<ModelEntry>,
    catalog: Map<ModelKeyView, ModelEntryView>,
    endpoint: EndpointConfig,
    test_only: bool,
    binding: BindingView,
    auth_kind: AuthSchemeKind,
    auth_binding: Option<BindingView>,
)
    requires
        profile_rejection(core, entries, catalog, endpoint, test_only, binding, auth_kind, auth_binding) is None,
    ensures
        profile_resolution(endpoint, mode_of(test_only), entries) matches Ok((parts, origin)) && binding_permits(
            binding,
            origin,
            parts.0.path,
        ),
        auth_binding matches Some(ab) ==> ab == binding,
        auth_binding is None ==> auth_kind == AuthSchemeKind::Unauthenticated,
{
}

fn declaration_keys_match(decls: &Vec<(ModelId, ModelCapabilityProfile)>) -> (r: bool)
    ensures
        r == !(exists|i: int|
            0 <= i < declaration_views(decls@).len() && #[trigger] declaration_views(decls@)[i].0
                != declaration_views(decls@)[i].1.0),
{
    let ghost views = declaration_views(decls@);
    let mut i: usize = 0;
    while i < decls.len()
        invariant
            views == declaration_views(decls@),
            i <= decls@.len(),
            forall|k: int| 0 <= k < i ==> #[trigger] views[k].0 == views[k].1.0,
        decreases decls.len() - i,
    {
        assert(views[i as int] == (decls@[i as int].0@, decls@[i as int].1@));
        if !str_eq(decls[i].0.as_str(), decls[i].1.model().as_str()) {
            assert(declaration_views(decls@)[i as int].0 != declaration_views(decls@)[i as int].1.0);
            return false;
        }
        i = i + 1;
    }
    true
}

fn contracts_match_dialect(contracts: &Vec<(ModelId, ResolvedProtocolContract)>, dialect: ProtocolDialect) -> (r:
    bool)
    ensures
        r == !(exists|i: int|
            0 <= i < contract_views(contracts@).len() && !contract_matches(
                #[trigger] contract_views(contracts@)[i].1,
                dialect,
            )),
{
    let ghost views = contract_views(contracts@);
    let mut i: usize = 0;
    while i < contracts.len()
        invariant
            views == contract_views(contracts@),
            i <= contracts@.len(),
            forall|k: int| 0 <= k < i ==> contract_matches(#[trigger] views[k].1, dialect),
        decreases contracts.len() - i,
    {
        assert(views[i as int] == (contracts@[i as int].0@, contracts@[i as int].1));
        if !contracts[i].1.matches_dialect(dialect) {
            assert(!contract_matches(contract_views(contracts@)[i as int].1, dialect));
            return false;
        }
        i = i + 1;
    }
    true
}

fn declared_capabilities<'a>(decls: &'a Vec<(ModelId, ModelCapabilityProfile)>, model: &ModelId) -> (r: Option<
    &'a ModelCapabilityProfile,
>)
    ensures
        match r {
            Some(p) => declared_for(declaration_views(decls@), model@) == Some(p@.1),
            None => declared_for(declaration_views(decls@), model@) is None,
        },
{
    let ghost views = declaration_views(decls@);
    let mut i: usize = 0;
    assert(views.skip(0) =~= views);
    while i < decls.len()
        invariant
            views == declaration_views(decls@),
            i <= decls@.len(),
            declared_for(views, model@) == declared_for(views.skip(i as int), model@),
        decreases decls.len() - i,
    {
        assert(views.skip(i as int)[0] == (decls@[i as int].0@, decls@[i as int].1@));
        assert(views.skip(i as int).drop_first() =~= views.skip(i + 1));
        if str_eq(decls[i].0.as_str(), model.as_str()) {
            return Some(&decls[i].1);
        }
        i = i + 1;
    }
    assert(views.skip(i as int).len() == 0);
    None
}

fn model_capabilities_for(
    capabilities: &ProviderCapabilities,
    catalog: &ModelCatalog,
    provider_id: &ProviderId,
    product_id: &ProductId,
    decls: &Vec<(ModelId, ModelCapabilityProfile)>,
    model: &ModelId,
) -> (r: ProviderCapabilities)
    ensures
        r == capabilities_for(
            *capabilities,
            catalog@,
            provider_id@,
            product_id@,
            declaration_views(decls@),
            model@,
        ),
{
    let mut caps = *capabilities;
    let key = ModelKey {
        provider_id: provider_id.clone(),
        product_id: product_id.clone(),
        domain_model_id: model.clone(),
    };
    assert(key@ == (provider_id@, product_id@, model@));
    if let Some(entry) = catalog.get(&key) {
        caps.apply_catalog(&entry.capabilities);
    }
    if let Some(declaration) = declared_capabilities(decls, model) {
        caps.apply_model(declaration);
    }
    caps
}

fn check_model_contracts(
    contracts: &Vec<(ModelId, ResolvedProtocolContract)>,
    capabilities: &ProviderCapabilities,
    catalog: &ModelCatalog,
    provider_id: &ProviderId,
    product_id: &ProductId,
    decls: &Vec<(ModelId, ModelCapabilityProfile)>,
) -> (r: Result<(), LlmError>)
    ensures
        match first_model_conflict(
            contract_views(contracts@),
            *capabilities,
            catalog@,
            provider_id@,
            product_id@,
            declaration_views(decls@),
        ) {
            None => r is Ok,
            Some(m) => r matches Err(e) && is_configuration(e, m),
        },
{
    let ghost views = contract_views(contracts@);
    let ghost all = first_model_conflict(
        views,
        *capabilities,
        catalog@,
        provider_id@,
        product_id@,
        declaration_views(decls@),
    );
    let mut i: usize = 0;
    proof {
        assert(views.skip(0) =~= views);
    }
    while i < contracts.len()
        invariant
            views == contract_views(contracts@),
            i <= contracts@.len(),
            all == first_model_conflict(
                views,
                *capabilities,
                catalog@,
                provider_id@,
                product_id@,
                declaration_views(decls@),
            ),
            all == first_model_conflict(
                views.skip(i as int),
                *capabilities,
                catalog@,
                provider_id@,
                product_id@,
                declaration_views(decls@),
            ),
        decreases contracts.len() - i,
    {
        assert(views.skip(i as int)[0] == (contracts@[i as int].0@, contracts@[i as int].1));
        assert(views.skip(i as int).drop_first() =~= views.skip(i + 1));
        let caps = model_capabilities_for(capabilities, catalog, provider_id, product_id, decls, &contracts[i].0);
        let ghost here = contract_conflict(contracts@[i as int].1, caps);
        assert(first_model_conflict(
            views.skip(i as int),
            *capabilities,
            catalog@,
            provider_id@,
            product_id@,
            declaration_views(decls@),
        ) == match here {
            Some(m) => Some(m),
            None => first_model_conflict(
                views.skip(i + 1),
                *capabilities,
                catalog@,
                provider_id@,
                product_id@,
                declaration_views(decls@),
            ),
        });
        match contracts[i].1.validate_capabilities(&caps) {
            Ok(()) => {},
            Err(e) => {
                return Err(e);
            },
        }
        i = i + 1;
    }
    assert(views.skip(i as int).len() == 0);
    Ok(())
}

fn resolve_profile_endpoint(endpoint: &EndpointConfig, test_only: bool, catalog: &ModelCatalog) -> (r:
    Result<ResolvedEndpoint, LlmError>)
    ensures
        resolution_reported(
            profile_resolution(*endpoint, mode_of(test_only), catalog.spec_entries()),
            r,
        ),
{
    let mode = if test_only {
        EndpointMode::TestOnly
    } else {
        EndpointMode::Production
    };
    if endpoint.requires_mapping() {
        let entries = catalog.entries();
        if entries.len() == 0 {
            return Err(configuration("endpoint template variables require an exact catalog entry"));
        }
        let mapping = ResolvedModelMapping::from_entry(&entries[0]);
        endpoint.resolve(mode, Some(mapping.endpoint_values()))
    } else {
        endpoint.resolve(mode, None)
    }
}

fn check_bindings(
    resolved: &ResolvedEndpoint,
    binding: &CredentialBinding,
    auth_binding: Option<&CredentialBinding>,
) -> (r: Result<(), LlmError>)
    ensures
        match binding_problem(
            resolved.spec_url().path,
            resolved.spec_origin(),
            binding@,
            match auth_binding {
                Some(b) => Some(b@),
                None => None,
            },
        ) {
            None => r is Ok,
            Some(m) => r matches Err(e) && is_configuration(e, m),
        },
{
    binding.validate(resolved)?;
    if let Some(b) = auth_binding {
        b.validate(resolved)?;
    }
    Ok(())
}

fn check_entry_endpoints(
    endpoint: &EndpointConfig,
    test_only: bool,
    catalog: &ModelCatalog,
    binding: &CredentialBinding,
    auth_binding: Option<&CredentialBinding>,
) -> (r: Result<(), LlmError>)
    ensures
        match first_entry_problem(
            *endpoint,
            mode_of(test_only),
            catalog.spec_entries(),
            binding@,
            match auth_binding {
                Some(b) => Some(b@),
                None => None,
            },
        ) {
            None => r is Ok,
            Some(m) => r matches Err(e) && is_configuration(e, m),
        },
{
    let mode = if test_only {
        EndpointMode::TestOnly
    } else {
        EndpointMode::Production
    };
    let ghost ab = match auth_binding {
        Some(b) => Some(b@),
        None => None,
    };
    let entries = catalog.entries();
    let ghost all = first_entry_problem(*endpoint, mode, entries@, binding@, ab);
    let mut i: usize = 0;
    assert(entries@.skip(0) =~= entries@);
    while i < entries.len()
        invariant
            entries@ == catalog.spec_entries(),
            mode == mode_of(test_only),
            ab == match auth_binding {
                Some(b) => Some(b@),
                None => None,
            },
            i <= entries@.len(),
            all == first_entry_problem(*endpoint, mode, entries@, binding@, ab),
            all == first_entry_problem(*endpoint, mode, entries@.skip(i as int), binding@, ab),
        decreases entries.len() - i,
    {
        assert(entries@.skip(i as int)[0] == entries@[i as int]);
        assert(entries@.skip(i as int).drop_first() =~= entries@.skip(i + 1));
        let mapping = ResolvedModelMapping::from_entry(&entries[i]);
        let resolved = match endpoint.resolve(mode, Some(mapping.endpoint_values())) {
            Ok(resolved) => resolved,
            Err(e) => {
                return Err(e);
            },
        };
        match check_bindings(&resolved, binding, auth_binding) {
            Ok(()) => {},
            Err(e) => {
                return Err(e);
            },
        }
        i = i + 1;
    }
    assert(entries@.skip(i as int).len() == 0);
    Ok(())
}

/// The identity, capability and protocol parts of a profile, as checked.
pub open spec fn core_of(
    provider_id: ProviderId,
    product_id: ProductId,
    protocol_id: ProtocolId,
    dialect: ProtocolDialect,
    contract: ResolvedProtocolContract,
    capabilities: ProviderCapabilities,
    model_capabilities: Seq<(ModelId, ModelCapabilityProfile)>,
    model_contracts: Seq<(ModelId, ResolvedProtocolContract)>,
    max_http_error_body_bytes: usize,
) -> ProfileCore {
    ProfileCore {
        provider: provider_id@,
        product: product_id@,
        protocol: protocol_id@,
        dialect,
        contract,
        capabilities,
        declarations: declaration_views(model_capabilities),
        model_contracts: contract_views(model_contracts),
        max_http_error_body_bytes,
    }
}

/// Checks that the parts of a provider profile agree and may run, and resolves its
/// endpoint: a positive HTTP error body limit, valid capabilities, model-capability
/// declarations filed under their own model, a supported protocol binding, a catalog of the
/// profile's own provider, product and protocol, model contracts of the profile's dialect
/// (none for Anthropic Messages) that agree with each model's capabilities, an endpoint
/// that resolves under the profile's mode, a credential binding and authentication binding
/// that permit it and are the same binding, and catalog entries whose mapped endpoints are
/// permitted too.
pub fn check_profile_parts(
    provider_id: &ProviderId,
    product_id: &ProductId,
    protocol_id: &ProtocolId,
    dialect: ProtocolDialect,
    contract: &ResolvedProtocolContract,
    capabilities: &ProviderCapabilities,
    catalog: &ModelCatalog,
    model_capabilities: &Vec<(ModelId, ModelCapabilityProfile)>,
    model_contracts: &Vec<(ModelId, ResolvedProtocolContract)>,
    endpoint: &EndpointConfig,
    test_only: bool,
    max_http_error_body_bytes: usize,
    binding: &CredentialBinding,
    auth_kind: AuthSchemeKind,
    auth_binding: Option<&CredentialBinding>,
) -> (r: Result<ResolvedEndpoint, LlmError>)
    ensures
        match profile_rejection(
            core_of(
                *provider_id,
                *product_id,
                *protocol_id,
                dialect,
                *contract,
                *capabilities,
                model_capabilities@,
                model_contracts@,
                max_http_error_body_bytes,
            ),
            catalog.spec_entries(),
            catalog@,
            *endpoint,
            test_only,
            binding@,
            auth_kind,
            match auth_binding {
                Some(b) => Some(b@),
                None => None,
            },
        ) {
            Some(m) => r matches Err(e) && is_configuration(e, m),
            None => r is Ok && resolution_reported(
                profile_resolution(*endpoint, mode_of(test_only), catalog.spec_entries()),
                r,
            ),
        },
{
    if max_http_error_body_bytes == 0 {
        return Err(configuration("HTTP error body limit must be positive"));
    }
    capabilities.validate()?;
    if !declaration_keys_match(model_capabilities) {
        return Err(configuration("model capability map key does not match its declaration"));
    }
    let openai = str_eq(protocol_id.as_str(), "openai-chat-completions")
        && dialect == ProtocolDialect::OpenAiChatCompletions && matches!(
        contract,
        ResolvedProtocolContract::OpenAiChat(_)
    );
    let anthropic = str_eq(protocol_id.as_str(), "anthropic-messages") && dialect
        == ProtocolDialect::AnthropicMessages && matches!(
        contract,
        ResolvedProtocolContract::AnthropicMessages(_)
    );
    if !openai && !anthropic {
        return Err(configuration("protocol id, dialect, and contract do not form a supported binding"));
    }
    if !catalog_matches(catalog, provider_id, product_id, protocol_id) {
        return Err(configuration("catalog entry does not match provider product protocol"));
    }
    if !contracts_match_dialect(model_contracts, dialect) {
        return Err(configuration("model protocol contract does not match the provider protocol binding"));
    }
    if dialect == ProtocolDialect::AnthropicMessages && model_contracts.len() > 0 {
        return Err(configuration("Anthropic Messages profiles cannot carry OpenAI compatibility policy"));
    }
    contract.validate_capabilities(capabilities)?;
    check_model_contracts(model_contracts, capabilities, catalog, provider_id, product_id, model_capabilities)?;
    let resolved = resolve_profile_endpoint(endpoint, test_only, catalog)?;
    check_bindings(&resolved, binding, auth_binding)?;
    match auth_binding {
        Some(b) => {
            if !b.same_as(binding) {
                return Err(configuration("authentication binding does not match provider credential binding"));
            }
        },
        None => {
            if auth_kind != AuthSchemeKind::Unauthenticated {
                return Err(
                    configuration("credential-bearing authentication must expose its destination binding"),
                );
            }
        },
    }
    check_entry_endpoints(endpoint, test_only, catalog, binding, auth_binding)?;
    Ok(resolved)
}

/// The layers of one attempt's headers, lowest priority first: transport, protocol,
/// provider (its defaults, then the request's identity operations), client identity,
/// model (its defaults, then the request's model operations), dynamic policy, request and
/// authentication.
pub open spec fn attempt_layers(
    protocol: Seq<HeaderOperationView>,
    provider: Seq<HeaderOperationView>,
    request_identity: Seq<HeaderOperationView>,
    identity: HeaderOperationView,
    model_defaults: Seq<HeaderOperationView>,
    model: Seq<HeaderOperationView>,
    dynamic: Seq<HeaderOperationView>,
    request: Seq<HeaderOperationView>,
    auth: Seq<HeaderOperationView>,
) -> Seq<(HeaderSource, Seq<HeaderOperationView>)> {
    seq![
        (HeaderSource::Transport, Seq::empty()),
        (HeaderSource::Protocol, protocol),
        (HeaderSource::Provider, provider + request_identity),
        (HeaderSource::ClientIdentity, seq![identity]),
        (HeaderSource::Model, model_defaults + model),
        (HeaderSource::DynamicPolicy, dynamic),
        (HeaderSource::Request, request),
        (HeaderSource::Auth, auth),
    ]
}

fn joined_operations(first: Vec<HeaderOperation>, second: Vec<HeaderOperation>) -> (r: Vec<HeaderOperation>)
    ensures
        operation_views(r@) == operation_views(first@) + operation_views(second@),
{
    let mut out = first;
    let mut rest = second;
    let ghost a = out@;
    let ghost b = rest@;
    out.append(&mut rest);
    assert(operation_views(out@) =~= operation_views(a) + operation_views(b));
    out
}

/// Resolves one attempt's headers from the operations each layer contributes, in the
/// fixed layer order, and requires the protocol's JSON content type.
pub fn resolve_attempt_headers(
    pipeline: &HeaderPipeline,
    protocol: Vec<HeaderOperation>,
    provider: Vec<HeaderOperation>,
    request_identity: Vec<HeaderOperation>,
    identity: HeaderOperation,
    model_defaults: Vec<HeaderOperation>,
    model: Vec<HeaderOperation>,
    dynamic: Vec<HeaderOperation>,
    request: Vec<HeaderOperation>,
    auth: Vec<HeaderOperation>,
) -> (r: Result<ResolvedHeaders, LlmError>)
    ensures
        match layers_resolution(
            pipeline@,
            attempt_layers(
                operation_views(protocol@),
                operation_views(provider@),
                operation_views(request_identity@),
                identity@,
                operation_views(model_defaults@),
                operation_views(model@),
                operation_views(dynamic@),
                operation_views(request@),
                operation_views(auth@),
            ),
        ) {
            Err(refusal) => r matches Err(e) && refused_as(e, refusal),
            Ok(v) => if v.headers.contains_key("content-type"@) && v.headers["content-type"@]
                == json_media_type() {
                r matches Ok(h) && h@ == v
            } else {
                r matches Err(e) && is_validation(
                    e,
                    "request_headers.content-type"@,
                    ValidationReason::ProtectedHeader,
                    "generation protocol must set application/json"@,
                )
            },
        },
{
    let ghost expected = attempt_layers(
        operation_views(protocol@),
        operation_views(provider@),
        operation_views(request_identity@),
        identity@,
        operation_views(model_defaults@),
        operation_views(model@),
        operation_views(dynamic@),
        operation_views(request@),
        operation_views(auth@),
    );
    let provider_operations = joined_operations(provider, request_identity);
    let model_operations = joined_operations(model_defaults, model);
    let identity_operations = vec![identity];
    assert(operation_views(identity_operations@) =~= seq![identity@]);
    let empty: Vec<HeaderOperation> = Vec::new();
    assert(operation_views(empty@) =~= Seq::<HeaderOperationView>::empty());
    let layers = vec![
        HeaderLayer::new(HeaderSource::Transport, empty),
        HeaderLayer::new(HeaderSource::Protocol, protocol),
        HeaderLayer::new(HeaderSource::Provider, provider_operations),
        HeaderLayer::new(HeaderSource::ClientIdentity, identity_operations),
        HeaderLayer::new(HeaderSource::Model, model_operations),
        HeaderLayer::new(HeaderSource::DynamicPolicy, dynamic),
        HeaderLayer::new(HeaderSource::Request, request),
        HeaderLayer::new(HeaderSource::Auth, auth),
    ];
    assert(layer_views(layers@) =~= expected);
    let resolved = pipeline.resolve_without_auth_assumption(layers)?;
    let json = match resolved.get("content-type") {
        Some(value) => media_type_is_json(value),
        None => false,
    };
    if !json {
        return Err(
            validation(
                "request_headers.content-type",
                ValidationReason::ProtectedHeader,
                "generation protocol must set application/json",
            ),
        );
    }
    Ok(resolved)
}

} // verus!
