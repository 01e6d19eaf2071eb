//! Explicit provider selection.

use vstd::prelude::*;

use crate::domain::ProviderId;

verus! {

/// Winning source in the frozen provider-selection precedence chain.
///
/// Every source is explicit. The SDK never infers a provider from an endpoint URL.
#[derive(Clone, Copy, Debug, PartialEq, Eq, Structural)]
pub enum ProviderSelectionSource {
    /// Explicit request selection.
    RequestExplicit,
    /// Provider carried by the exact model reference.
    ModelExplicit,
    /// Explicit provider configuration.
    ProviderExplicit,
    /// Explicit built-in profile selection.
    BuiltInProfile,
    /// No provider was declared; the caller must supply one before sending.
    Undeclared,
}

/// Mathematical form of a [`ProviderSelectionInput`]: the four declarations in
/// precedence order.
pub struct SelectionInputView {
    pub request: Option<Seq<char>>,
    pub model: Option<Seq<char>>,
    pub provider: Option<Seq<char>>,
    pub built_in_profile: Option<Seq<char>>,
}

/// The view of an optional provider identifier.
pub open spec fn provider_view(p: Option<ProviderId>) -> Option<Seq<char>> {
    match p {
        Some(id) => Some(id@),
        None => None,
    }
}

/// Typed inputs considered by [`ProviderSelector`] in strict precedence order.
#[derive(Debug)]
pub struct ProviderSelectionInput {
    request: Option<ProviderId>,
    model: Option<ProviderId>,
    provider: Option<ProviderId>,
    built_in_profile: Option<ProviderId>,
}

impl View for ProviderSelectionInput {
    type V = SelectionInputView;

    closed spec fn view(&self) -> SelectionInputView {
        SelectionInputView {
            request: provider_view(self.request),
            model: provider_view(self.model),
            provider: provider_view(self.provider),
            built_in_profile: provider_view(self.built_in_profile),
        }
    }
}

impl ProviderSelectionInput {
    /// Creates empty input, which resolves to no declared provider.
    pub fn new() -> (r: Self)
        ensures
            r@ == (SelectionInputView {
                request: None,
                model: None,
                provider: None,
                built_in_profile: None,
            }),
    {
        ProviderSelectionInput { request: None, model: None, provider: None, built_in_profile: None }
    }

    /// Sets request-explicit provider selection.
    pub fn with_request_provider(self, provider: ProviderId) -> (r: Self)
        ensures
            r@ == (SelectionInputView { request: Some(provider@), ..self@ }),
    {
        ProviderSelectionInput { request: Some(provider), ..self }
    }

    /// Sets model-explicit provider selection.
    pub fn with_model_provider(self, provider: ProviderId) -> (r: Self)
        ensures
            r@ == (SelectionInputView { model: Some(provider@), ..self@ }),
    {
        ProviderSelectionInput { model: Some(provider), ..self }
    }

    /// Sets provider-explicit configuration selection.
    pub fn with_provider(self, provider: ProviderId) -> (r: Self)
        ensures
            r@ == (SelectionInputView { provider: Some(provider@), ..self@ }),
    {
        ProviderSelectionInput { provider: Some(provider), ..self }
    }

    /// Sets an explicitly selected built-in profile.
    pub fn with_built_in_profile(self, provider: ProviderId) -> (r: Self)
        ensures
            r@ == (SelectionInputView { built_in_profile: Some(provider@), ..self@ }),
    {
        ProviderSelectionInput { built_in_profile: Some(provider), ..self }
    }
}

impl Default for ProviderSelectionInput {
    fn default() -> (r: Self)
        ensures
            r@ == (SelectionInputView {
                request: None,
                model: None,
                provider: None,
                built_in_profile: None,
            }),
    {
        Self::new()
    }
}

/// The winning provider declaration and the tier it came from.
#[derive(Debug)]
pub struct ProviderSelection {
    provider_id: Option<ProviderId>,
    source: ProviderSelectionSource,
}

impl View for ProviderSelection {
    type V = (Option<Seq<char>>, ProviderSelectionSource);

    closed spec fn view(&self) -> (Option<Seq<char>>, ProviderSelectionSource) {
        (provider_view(self.provider_id), self.source)
    }
}

impl ProviderSelection {
    /// Returns the declared provider, or `None` when no source declared one.
    pub fn provider_id(&self) -> (r: Option<&ProviderId>)
        ensures
            match r {
                Some(id) => self@.0 == Some(id@),
                None => self@.0 is None,
            },
    {
        match &self.provider_id {
            Some(id) => Some(id),
            None => None,
        }
    }

    /// Returns the winning selection source.
    pub fn source(&self) -> (r: ProviderSelectionSource)
        ensures
            r == self@.1,
    {
        self.source
    }
}

/// The highest-precedence declaration and its tier: request, then model, then provider
/// configuration, then built-in profile; none declared gives `Undeclared`.
pub open spec fn selection_of(input: SelectionInputView) -> (Option<Seq<char>>, ProviderSelectionSource) {
    if input.request is Some {
        (input.request, ProviderSelectionSource::RequestExplicit)
    } else if input.model is Some {
        (input.model, ProviderSelectionSource::ModelExplicit)
    } else if input.provider is Some {
        (input.provider, ProviderSelectionSource::ProviderExplicit)
    } else if input.built_in_profile is Some {
        (input.built_in_profile, ProviderSelectionSource::BuiltInProfile)
    } else {
        (None, ProviderSelectionSource::Undeclared)
    }
}

/// Resolves the frozen precedence chain over explicitly declared providers only.
#[derive(Clone, Copy, Debug, Default)]
pub struct ProviderSelector;

impl ProviderSelector {
    /// Returns the highest-precedence declared provider, or `Undeclared`.
    pub fn select(input: &ProviderSelectionInput) -> (r: ProviderSelection)
        ensures
            r@ == selection_of(input@),
    {
        if let Some(p) = &input.request {
            return ProviderSelection {
                provider_id: Some(p.clone()),
                source: ProviderSelectionSource::RequestExplicit,
            };
        }
        if let Some(p) = &input.model {
            return ProviderSelection {
                provider_id: Some(p.clone()),
                source: ProviderSelectionSource::ModelExplicit,
            };
        }
        if let Some(p) = &input.provider {
            return ProviderSelection {
                provider_id: Some(p.clone()),
                source: ProviderSelectionSource::ProviderExplicit,
            };
        }
        if let Some(p) = &input.built_in_profile {
            return ProviderSelection {
                provider_id: Some(p.clone()),
                source: ProviderSelectionSource::BuiltInProfile,
            };
        }
        ProviderSelection { provider_id: None, source: ProviderSelectionSource::Undeclared }
    }
}

/// A declaration at a tier wins over every lower tier: the selected provider is the
/// declared one of the highest tier that has one, and setting a higher tier changes the
/// selection to it.
pub proof fn lemma_higher_tier_wins(input: SelectionInputView, provider: Seq<char>)
    ensures
        selection_of(SelectionInputView { request: Some(provider), ..input }) == (
            Some(provider),
            ProviderSelectionSource::RequestExplicit,
        ),
        input.request is None ==> selection_of(SelectionInputView { model: Some(provider), ..input })
            == (Some(provider), ProviderSelectionSource::ModelExplicit),
        selection_of(input).1 == ProviderSelectionSource::Undeclared <==> (input.request is None
            && input.model is None && input.provider is None && input.built_in_profile is None),
{
}

} // verus!
