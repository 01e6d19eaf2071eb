//! Typed identifiers used by the model catalog.

use vstd::prelude::*;
use vstd::std_specs::cmp::PartialEqSpecImpl;

use crate::domain::{check_identifier, identifier_result_ok};
use crate::error::ValidationError;

verus! {

/// Exact provider product identifier.
#[derive(Debug, Eq)]
pub struct ProductId(String);

impl View for ProductId {
    type V = Seq<char>;

    closed spec fn view(&self) -> Seq<char> {
        self.0@
    }
}

impl Clone for ProductId {
    fn clone(&self) -> (r: Self)
        ensures
            r == *self,
    {
        ProductId(self.0.clone())
    }
}

impl PartialEq for ProductId {
    fn eq(&self, other: &Self) -> (r: bool) {
        self.0 == other.0
    }
}

impl PartialEqSpecImpl for ProductId {
    open spec fn obeys_eq_spec() -> bool {
        true
    }

    open spec fn eq_spec(&self, other: &Self) -> bool {
        self@ == other@
    }
}

impl ProductId {
    /// Creates a non-empty, boundary-trimmed identifier of at most 256 bytes.
    pub fn new(value: &str) -> (r: Result<Self, ValidationError>)
        ensures
            identifier_result_ok("product_id"@, value@, r),
            r matches Ok(id) ==> id@ == value@,
    {
        check_identifier("product_id", value)?;
        Ok(ProductId(value.to_owned()))
    }

    /// Returns the identifier text.
    pub fn as_str(&self) -> (r: &str)
        ensures
            r@ == self@,
    {
        self.0.as_str()
    }
}

/// Provider-owned model identifier.
#[derive(Debug, Eq)]
pub struct ProviderModelId(String);

impl View for ProviderModelId {
    type V = Seq<char>;

    closed spec fn view(&self) -> Seq<char> {
        self.0@
    }
}

impl Clone for ProviderModelId {
    fn clone(&self) -> (r: Self)
        ensures
            r == *self,
    {
        ProviderModelId(self.0.clone())
    }
}

impl PartialEq for ProviderModelId {
    fn eq(&self, other: &Self) -> (r: bool) {
        self.0 == other.0
    }
}

impl PartialEqSpecImpl for ProviderModelId {
    open spec fn obeys_eq_spec() -> bool {
        true
    }

    open spec fn eq_spec(&self, other: &Self) -> bool {
        self@ == other@
    }
}

impl ProviderModelId {
    /// Creates a non-empty, boundary-trimmed identifier of at most 256 bytes.
    pub fn new(value: &str) -> (r: Result<Self, ValidationError>)
        ensures
            identifier_result_ok("provider_model_id"@, value@, r),
            r matches Ok(id) ==> id@ == value@,
    {
        check_identifier("provider_model_id", value)?;
        Ok(ProviderModelId(value.to_owned()))
    }

    /// Returns the identifier text.
    pub fn as_str(&self) -> (r: &str)
        ensures
            r@ == self@,
    {
        self.0.as_str()
    }
}

/// Provider deployment identifier.
#[derive(Debug, Eq)]
pub struct DeploymentId(String);

impl View for DeploymentId {
    type V = Seq<char>;

    closed spec fn view(&self) -> Seq<char> {
        self.0@
    }
}

impl Clone for DeploymentId {
    fn clone(&self) -> (r: Self)
        ensures
            r == *self,
    {
        DeploymentId(self.0.clone())
    }
}

impl PartialEq for DeploymentId {
    fn eq(&self, other: &Self) -> (r: bool) {
        self.0 == other.0
    }
}

impl PartialEqSpecImpl for DeploymentId {
    open spec fn obeys_eq_spec() -> bool {
        true
    }

    open spec fn eq_spec(&self, other: &Self) -> bool {
        self@ == other@
    }
}

impl DeploymentId {
    /// Creates a non-empty, boundary-trimmed identifier of at most 256 bytes.
    pub fn new(value: &str) -> (r: Result<Self, ValidationError>)
        ensures
            identifier_result_ok("deployment_id"@, value@, r),
            r matches Ok(id) ==> id@ == value@,
    {
        check_identifier("deployment_id", value)?;
        Ok(DeploymentId(value.to_owned()))
    }

    /// Returns the identifier text.
    pub fn as_str(&self) -> (r: &str)
        ensures
            r@ == self@,
    {
        self.0.as_str()
    }
}

/// Exact model value serialized on the wire.
#[derive(Debug, Eq)]
pub struct WireModelValue(String);

impl View for WireModelValue {
    type V = Seq<char>;

    closed spec fn view(&self) -> Seq<char> {
        self.0@
    }
}

impl Clone for WireModelValue {
    fn clone(&self) -> (r: Self)
        ensures
            r == *self,
    {
        WireModelValue(self.0.clone())
    }
}

impl PartialEq for WireModelValue {
    fn eq(&self, other: &Self) -> (r: bool) {
        self.0 == other.0
    }
}

impl PartialEqSpecImpl for WireModelValue {
    open spec fn obeys_eq_spec() -> bool {
        true
    }

    open spec fn eq_spec(&self, other: &Self) -> bool {
        self@ == other@
    }
}

impl WireModelValue {
    /// Creates a non-empty, boundary-trimmed identifier of at most 256 bytes.
    pub fn new(value: &str) -> (r: Result<Self, ValidationError>)
        ensures
            identifier_result_ok("wire_model_value"@, value@, r),
            r matches Ok(id) ==> id@ == value@,
    {
        check_identifier("wire_model_value", value)?;
        Ok(WireModelValue(value.to_owned()))
    }

    /// Returns the identifier text.
    pub fn as_str(&self) -> (r: &str)
        ensures
            r@ == self@,
    {
        self.0.as_str()
    }
}

/// Catalog evidence source identifier.
#[derive(Debug, Eq)]
pub struct CatalogSourceId(String);

impl View for CatalogSourceId {
    type V = Seq<char>;

    closed spec fn view(&self) -> Seq<char> {
        self.0@
    }
}

impl Clone for CatalogSourceId {
    fn clone(&self) -> (r: Self)
        ensures
            r == *self,
    {
        CatalogSourceId(self.0.clone())
    }
}

impl PartialEq for CatalogSourceId {
    fn eq(&self, other: &Self) -> (r: bool) {
        self.0 == other.0
    }
}

impl PartialEqSpecImpl for CatalogSourceId {
    open spec fn obeys_eq_spec() -> bool {
        true
    }

    open spec fn eq_spec(&self, other: &Self) -> bool {
        self@ == other@
    }
}

impl CatalogSourceId {
    /// Creates a non-empty, boundary-trimmed identifier of at most 256 bytes.
    pub fn new(value: &str) -> (r: Result<Self, ValidationError>)
        ensures
            identifier_result_ok("catalog_source_id"@, value@, r),
            r matches Ok(id) ==> id@ == value@,
    {
        check_identifier("catalog_source_id", value)?;
        Ok(CatalogSourceId(value.to_owned()))
    }

    /// Returns the identifier text.
    pub fn as_str(&self) -> (r: &str)
        ensures
            r@ == self@,
    {
        self.0.as_str()
    }
}

} // verus!
