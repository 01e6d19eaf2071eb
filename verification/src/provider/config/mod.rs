//! Provider configuration sources, value provenance and secret references.

pub mod source;
pub mod validate;

pub use crate::provider::secret::{EnvironmentSecretResolver, SecretReference, SecretResolver};
pub use validate::{
    compile_endpoint, validate_snapshot, ClientIdentityConfig, ConfigSchemaVersion,
    CredentialAudienceSpec, EndpointSpec, ProviderConfigSnapshot, ResolvedField,
};
pub use source::{
    ConfigSource, ConfigSourceId, ConfigSourceKind, ConfigSourceLocation, FieldProvenance,
    FieldState,
};
