//! Endpoint policy, templates, credential audiences, origins and model mappings.

pub mod audience;
pub mod config;
pub mod mapping;
pub mod origin;
pub mod policy;
pub mod target;
pub mod template;
