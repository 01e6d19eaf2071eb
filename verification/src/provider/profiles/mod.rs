//! Built-in provider presets: the parts that decide what a preset sends.

pub mod official;
pub mod openrouter;

pub use openrouter::OpenRouterAttribution;
