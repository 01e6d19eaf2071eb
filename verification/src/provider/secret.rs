//! Explicit secret-reference and secret-resolution boundary.
//!
//! A credential in configuration is a *reference* (the name of one environment
//! variable), never a plaintext value; reading the variable is a separate, explicit act.

use vstd::prelude::*;

use crate::error::{
    config_error_is, LlmError, ProviderConfigError, ProviderConfigFailure,
};
use crate::text::{in_set, CharSet, char_in_set};

use super::auth::{api_key_rejection, ApiKey};

verus! {

/// A valid environment variable name: 1 to 128 characters, a letter or `_` first, then
/// letters, digits or `_`.
pub open spec fn env_name_ok(name: Seq<char>) -> bool {
    &&& name.len() > 0
    &&& name.len() <= 128
    &&& in_set(name[0], CharSet::WordStart)
    &&& forall|i: int| 1 <= i < name.len() ==> #[trigger] in_set(name[i], CharSet::Word)
}

/// The configuration error reported for an invalid variable name.
pub open spec fn invalid_name_error(e: ProviderConfigError) -> bool {
    config_error_is(
        e,
        "credential.name"@,
        ProviderConfigFailure::InvalidValue,
        "environment secret reference must be a valid variable name"@,
    )
}

/// A named environment-secret reference. The secret value is never stored here.
#[derive(Debug)]
pub enum SecretReference {
    /// Read exactly one named environment variable when explicitly resolved.
    EnvironmentVariable(String),
}

impl SecretReference {
    pub closed spec fn spec_name(&self) -> Seq<char> {
        match self {
            SecretReference::EnvironmentVariable(name) => name@,
        }
    }

    /// Creates and validates an environment variable reference.
    pub fn environment_variable(name: &str) -> (r: Result<Self, ProviderConfigError>)
        ensures
            env_name_ok(name@) ==> (r matches Ok(reference) && reference.spec_name() == name@),
            !env_name_ok(name@) ==> (r matches Err(e) && invalid_name_error(e)),
    {
        let n = name.unicode_len();
        let mut valid = n != 0 && n <= 128;
        if valid {
            valid = char_in_set(name.get_char(0), CharSet::WordStart);
            let mut i: usize = 1;
            while valid && i < n
                invariant
                    n == name@.len(),
                    1 <= i <= n,
                    valid ==> forall|j: int| 1 <= j < i ==> #[trigger] in_set(name@[j], CharSet::Word),
                    valid ==> in_set(name@[0], CharSet::WordStart),
                    !valid ==> !env_name_ok(name@),
                decreases n - i,
            {
                if !char_in_set(name.get_char(i), CharSet::Word) {
                    valid = false;
                }
                i = i + 1;
            }
        }
        if !valid {
            return Err(
                ProviderConfigError::new(
                    "credential.name",
                    ProviderConfigFailure::InvalidValue,
                    "environment secret reference must be a valid variable name",
                ),
            );
        }
        Ok(SecretReference::EnvironmentVariable(name.to_owned()))
    }

    /// Returns the referenced environment variable name.
    pub fn name(&self) -> (r: &str)
        ensures
            r@ == self.spec_name(),
    {
        match self {
            SecretReference::EnvironmentVariable(name) => name.as_str(),
        }
    }

    /// Re-checks a reference that arrived by another path than
    /// [`Self::environment_variable`].
    pub fn validate(&self) -> (r: Result<(), ProviderConfigError>)
        ensures
            env_name_ok(self.spec_name()) ==> r is Ok,
            !env_name_ok(self.spec_name()) ==> (r matches Err(e) && invalid_name_error(e)),
    {
        match Self::environment_variable(self.name()) {
            Ok(_) => Ok(()),
            Err(e) => Err(e),
        }
    }
}

impl Clone for SecretReference {
    fn clone(&self) -> (r: Self)
        ensures
            r.spec_name() == self.spec_name(),
    {
        match self {
            SecretReference::EnvironmentVariable(name) => SecretReference::EnvironmentVariable(
                name.clone(),
            ),
        }
    }
}

/// Resolves one explicit reference into an API key without enumerating unrelated secrets.
pub trait SecretResolver {
    /// Resolves the requested secret.
    fn resolve(&self, reference: &SecretReference) -> Result<ApiKey, ProviderConfigError>;
}

/// Resolver for the environment variable named by a reference.
///
/// Reading the variable is the caller's I/O; this type decides what the value read means.
#[derive(Clone, Copy, Debug)]
pub struct EnvironmentSecretResolver;

impl EnvironmentSecretResolver {
    /// Turns the outcome of reading the referenced variable into an API key: an absent
    /// variable is unavailable, and a value that is not a valid API key is invalid.
    pub fn resolve_value(&self, reference: &SecretReference, value: Option<&str>) -> (r: Result<
        ApiKey,
        ProviderConfigError,
    >)
        ensures
            match value {
                None => r matches Err(e) && config_error_is(
                    e,
                    "credential"@,
                    ProviderConfigFailure::SecretUnavailable,
                    "referenced environment secret is unavailable"@,
                ),
                Some(v) => match api_key_rejection(v@) {
                    None => r matches Ok(k) && k.spec_value() == v@,
                    Some(_) => r matches Err(e) && config_error_is(
                        e,
                        "credential"@,
                        ProviderConfigFailure::InvalidValue,
                        "referenced secret is not a valid API key"@,
                    ),
                },
            },
    {
        let value = match value {
            None => {
                return Err(
                    ProviderConfigError::new(
                        "credential",
                        ProviderConfigFailure::SecretUnavailable,
                        "referenced environment secret is unavailable",
                    ),
                );
            },
            Some(v) => v,
        };
        match ApiKey::new(value) {
            Ok(key) => Ok(key),
            Err(_) => Err(
                ProviderConfigError::new(
                    "credential",
                    ProviderConfigFailure::InvalidValue,
                    "referenced secret is not a valid API key",
                ),
            ),
        }
    }
}

impl Default for EnvironmentSecretResolver {
    fn default() -> (r: Self) {
        EnvironmentSecretResolver
    }
}

} // verus!
