//! Provider profiles, endpoint policy, protocol contracts, catalogs and selection.

pub mod auth;
pub mod capability;
pub mod catalog;
pub mod compat;
pub mod config;
pub mod definition;
pub mod detection;
pub mod diagnostics;
pub mod endpoint;
pub mod factory;
pub mod headers;
pub mod idempotency;
pub mod profiles;
pub mod protocol_contract;
pub mod rate_limit;
pub mod runtime;
pub mod registry;
pub mod secret;
