//! Compatibility and capability cross-validation.

use vstd::prelude::*;

use crate::error::{is_configuration, LlmError};
use crate::provider::capability::ProviderCapabilities;
use crate::provider::protocol_contract::profile::{compat_conflict, CompatProfile};

verus! {

/// Rejects compatibility policies that contradict selected capabilities.
pub fn validate_compat(compat: &CompatProfile, capabilities: &ProviderCapabilities) -> (r: Result<
    (),
    LlmError,
>)
    ensures
        match compat_conflict(*compat, *capabilities) {
            Some(message) => r matches Err(e) && is_configuration(e, message),
            None => r is Ok,
        },
{
    compat.validate_against(capabilities)
}

} // verus!
