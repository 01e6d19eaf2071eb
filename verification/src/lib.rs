//! Provider construction, validation and policy resolution for a multi-provider LLM SDK.

use vstd::prelude::*;

pub mod domain;
pub mod error;
pub mod keyed;
pub mod provider;
pub mod text;

verus! {

/// Version string that static definition registrations record.
pub const PROVIDER_CONFIG_SCHEMA_VERSION: &'static str = "1";

} // verus!
