//! Typed provider compatibility policies and provider-scoped routing.

pub mod patch;
pub mod routing;
pub mod validate;

pub use crate::domain::ModelBodyWireFormat;
pub use crate::provider::protocol_contract::{
    CompatField, CompatProfile, FinishReasonCompat, HistoryCompat, InlineErrorCompat,
    MaxOutputTokensWireFormat, RequestCompat, ResponseCompat, ToolArgumentsCompat, UsageCompat,
};
pub use routing::{
    ConstraintStrength, DataRetention, FallbackDimension, OpenRouterRoutingContract,
    OpenRouterRoutingPatch, ProviderRequestOptions, ResolvedProviderRouting, RoutingFallback,
    RoutingField, RoutingRegion, RoutingSort, UpstreamId,
};
pub use patch::CompatPatch;
pub use validate::validate_compat;
