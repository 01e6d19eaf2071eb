//! Catalog validation helpers.

use vstd::prelude::*;

use crate::error::LlmError;

use super::entry::{entry_checked, ModelEntry};

verus! {

/// Validates a complete catalog entry and returns a value-free error.
pub fn validate_entry(entry: &ModelEntry) -> (r: Result<(), LlmError>)
    ensures
        entry_checked(entry@, r),
{
    entry.validate()
}

} // verus!
