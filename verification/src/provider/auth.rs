//! Secret handling and value-free authentication shapes.

use vstd::prelude::*;

pub mod cache;
pub mod dynamic;
pub mod providers;

pub use dynamic::{
    CredentialIdentity, DynamicAuth, DynamicCredential, DynamicCredentialContext,
    DynamicCredentialScheme, TenantId,
};
pub use providers::{ApiKeyHeaderAuth, AuthContext, BearerAuth, BearerCredential, MultiHeaderAuth};

use crate::error::{is_validation, validation, LlmError, ValidationReason};
use crate::text::{all_in_set, boundary_whitespace, concat, has_boundary_whitespace, owned, CharSet};

verus! {

/// Value-free authentication shape exposed to diagnostics.
#[derive(Clone, Copy, Debug, PartialEq, Eq, Structural)]
pub enum AuthSchemeKind {
    /// `Authorization: Bearer <secret>`.
    Bearer,
    /// One explicitly registered API-key header.
    ApiKeyHeader,
    /// An atomic group of authentication headers.
    MultiHeader,
    /// A dynamic source whose allowed schemes are validated at runtime.
    Dynamic,
    /// Explicit unauthenticated operation.
    Unauthenticated,
    /// A downstream implementation that did not provide a more specific shape.
    Custom,
}

/// Value-free credential source class exposed to diagnostics.
#[derive(Clone, Copy, Debug, PartialEq, Eq, Structural)]
pub enum CredentialSourceKind {
    /// Credential material was provided when the profile was built.
    Static,
    /// Credential material is acquired through a bounded callback and cache.
    Dynamic,
    /// The profile intentionally has no credential.
    NoCredential,
    /// A downstream implementation that did not declare its source class.
    Custom,
}

/// Whether `http::HeaderValue::from_str` accepts the text: every byte is visible ASCII,
/// a space, a tab, or part of a non-ASCII character.
#[verifier::external_body]
pub(crate) fn header_value_accepts(value: &str) -> (r: bool)
    ensures
        r == all_in_set(value@, CharSet::HeaderValue),
{
    http::HeaderValue::from_str(value).is_ok()
}

/// The first reason an API key is rejected, as field, reason and summary.
pub open spec fn api_key_rejection(value: Seq<char>) -> Option<(Seq<char>, ValidationReason, Seq<char>)> {
    if value.len() == 0 {
        Some(("api_key"@, ValidationReason::Empty, "API key must not be empty"@))
    } else if has_boundary_whitespace(value) {
        Some(("api_key"@, ValidationReason::BoundaryWhitespace, "API key must not have boundary whitespace"@))
    } else if !all_in_set("Bearer "@ + value, CharSet::HeaderValue) {
        Some(("api_key"@, ValidationReason::InvalidHeader, "API key is not valid in a Bearer header"@))
    } else {
        None
    }
}

/// API key whose value is private to the crate and has no formatting implementation.
pub struct ApiKey(String);

impl ApiKey {
    /// Creates a non-empty Bearer-compatible secret without trimming it.
    pub fn new(value: &str) -> (r: Result<Self, LlmError>)
        ensures
            match api_key_rejection(value@) {
                None => r matches Ok(k) && k.spec_value() == value@,
                Some(f) => r matches Err(e) && is_validation(e, f.0, f.1, f.2),
            },
    {
        if value.unicode_len() == 0 {
            return Err(validation("api_key", ValidationReason::Empty, "API key must not be empty"));
        }
        if boundary_whitespace(value) {
            return Err(
                validation(
                    "api_key",
                    ValidationReason::BoundaryWhitespace,
                    "API key must not have boundary whitespace",
                ),
            );
        }
        let bearer = concat(owned("Bearer "), value);
        if !header_value_accepts(bearer.as_str()) {
            return Err(
                validation(
                    "api_key",
                    ValidationReason::InvalidHeader,
                    "API key is not valid in a Bearer header",
                ),
            );
        }
        Ok(ApiKey(value.to_owned()))
    }

    pub closed spec fn spec_value(&self) -> Seq<char> {
        self.0@
    }

    #[verifier::type_invariant]
    spec fn well_formed(self) -> bool {
        api_key_rejection(self.0@) is None
    }

    /// Exposes the secret text to the code that writes an authentication header.
    pub(crate) fn expose(&self) -> (r: &str)
        ensures
            r@ == self.spec_value(),
            api_key_rejection(r@) is None,
    {
        proof {
            use_type_invariant(self);
        }
        self.0.as_str()
    }
}

impl Clone for ApiKey {
    fn clone(&self) -> (r: Self)
        ensures
            r.spec_value() == self.spec_value(),
    {
        proof {
            use_type_invariant(self);
        }
        ApiKey(self.0.clone())
    }
}

/// Explicit unauthenticated operation.
#[derive(Clone, Copy, Debug, PartialEq, Eq, Structural)]
pub struct NoAuth;

impl NoAuth {
    /// The authentication shape: none.
    pub fn scheme_kind(&self) -> (r: AuthSchemeKind)
        ensures
            r == AuthSchemeKind::Unauthenticated,
    {
        AuthSchemeKind::Unauthenticated
    }

    /// The credential source class: none.
    pub fn credential_source_kind(&self) -> (r: CredentialSourceKind)
        ensures
            r == CredentialSourceKind::NoCredential,
    {
        CredentialSourceKind::NoCredential
    }
}

} // verus!
