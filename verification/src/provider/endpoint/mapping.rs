//! Catalog model mapping compiled for endpoint and request resolution.

use vstd::prelude::*;

use crate::domain::ModelId;
use crate::provider::catalog::{DeploymentId, ModelEntry, ProductId, ProviderModelId, WireModelValue};

use super::template::{EndpointValues, EndpointValuesView};

verus! {

/// Mathematical form of a [`ResolvedModelMapping`].
pub struct MappingView {
    pub domain_model_id: Seq<char>,
    pub product_id: Seq<char>,
    pub provider_model_id: Seq<char>,
    pub deployment_id: Option<Seq<char>>,
    pub wire_model_value: Seq<char>,
}

/// Immutable model/deployment/wire mapping copied from one exact catalog entry.
#[derive(Debug)]
pub struct ResolvedModelMapping {
    domain_model_id: ModelId,
    product_id: ProductId,
    provider_model_id: ProviderModelId,
    deployment_id: Option<DeploymentId>,
    wire_model_value: WireModelValue,
}

impl View for ResolvedModelMapping {
    type V = MappingView;

    closed spec fn view(&self) -> MappingView {
        MappingView {
            domain_model_id: self.domain_model_id@,
            product_id: self.product_id@,
            provider_model_id: self.provider_model_id@,
            deployment_id: match self.deployment_id {
                Some(d) => Some(d@),
                None => None,
            },
            wire_model_value: self.wire_model_value@,
        }
    }
}

impl ResolvedModelMapping {
    /// Compiles a mapping from a validated exact catalog entry.
    pub fn from_entry(entry: &ModelEntry) -> (r: Self)
        ensures
            r@ == (MappingView {
                domain_model_id: entry@.key.2,
                product_id: entry@.key.1,
                provider_model_id: entry@.provider_model_id,
                deployment_id: entry@.deployment_id,
                wire_model_value: entry@.wire_model_value,
            }),
    {
        ResolvedModelMapping {
            domain_model_id: entry.key.domain_model_id.clone(),
            product_id: entry.key.product_id.clone(),
            provider_model_id: entry.provider_model_id.clone(),
            deployment_id: match &entry.deployment_id {
                Some(d) => Some(d.clone()),
                None => None,
            },
            wire_model_value: entry.wire_model_value.clone(),
        }
    }

    /// Returns the application-facing model identifier.
    pub fn domain_model_id(&self) -> (r: &ModelId)
        ensures
            r@ == self@.domain_model_id,
    {
        &self.domain_model_id
    }

    /// Returns the provider product identifier.
    pub fn product_id(&self) -> (r: &ProductId)
        ensures
            r@ == self@.product_id,
    {
        &self.product_id
    }

    /// Returns the provider-owned model identifier.
    pub fn provider_model_id(&self) -> (r: &ProviderModelId)
        ensures
            r@ == self@.provider_model_id,
    {
        &self.provider_model_id
    }

    /// Returns the optional deployment identifier.
    pub fn deployment_id(&self) -> (r: Option<&DeploymentId>)
        ensures
            match r {
                Some(d) => self@.deployment_id == Some(d@),
                None => self@.deployment_id is None,
            },
    {
        match &self.deployment_id {
            Some(d) => Some(d),
            None => None,
        }
    }

    /// Returns the model value selected for the request wire format.
    pub fn wire_model_value(&self) -> (r: &WireModelValue)
        ensures
            r@ == self@.wire_model_value,
    {
        &self.wire_model_value
    }

    /// The path-template values of this mapping.
    pub fn endpoint_values(&self) -> (r: EndpointValues<'_>)
        ensures
            r@ == (EndpointValuesView {
                product_id: self@.product_id,
                provider_model_id: self@.provider_model_id,
                deployment_id: self@.deployment_id,
            }),
    {
        let deployment = match &self.deployment_id {
            Some(d) => Some(d),
            None => None,
        };
        EndpointValues::new(&self.product_id, &self.provider_model_id, deployment)
    }
}

} // verus!
