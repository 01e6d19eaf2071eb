//! Exact model catalog, capabilities, limits, and provenance.

pub mod entry;
pub mod ids;
pub mod merge;
pub mod source;
pub mod validate;

pub use entry::{
    CatalogCapabilities, CatalogDefaults, CatalogProvenance, ModelEntry, ModelKey, ModelLimits,
};
pub use ids::{CatalogSourceId, DeploymentId, ProductId, ProviderModelId, WireModelValue};
pub use merge::ModelCatalog;
pub use source::CatalogSource;
pub use validate::validate_entry;
