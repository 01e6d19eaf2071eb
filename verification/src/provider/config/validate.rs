//! Resolved provider configuration and the cross-field checks made before an official
//! profile is compiled from it.

use vstd::prelude::*;

use crate::domain::{identifier_rejection, ProtocolId, ProviderId};
use crate::error::{is_configuration, LlmError, ProviderConfigError, ProviderConfigFailure};
use crate::provider::endpoint::config::EndpointConfig;
use crate::provider::endpoint::target::parsed_url_facts;
use crate::provider::headers::identity::{
    impersonates, is_identity_token, user_agent_rejection, ClientIdentity, IdentityView,
};
use crate::provider::secret::{env_name_ok, SecretReference};
use crate::text::{str_eq, utf8_len, utf8_len_exceeds};

verus! {

/// The configuration schema version that this library reads.
pub const SUPPORTED_SCHEMA_VERSION: u32 = 1;

/// The largest accepted HTTP error body limit: one MiB.
pub const MAX_ERROR_BODY_LIMIT: usize = 1048576;

/// The version a configuration document declares.
#[derive(Clone, Copy, Debug, PartialEq, Eq, Structural)]
pub struct ConfigSchemaVersion(pub u32);

impl ConfigSchemaVersion {
    /// The version that this library reads.
    pub fn current() -> (r: Self)
        ensures
            r.0 == SUPPORTED_SCHEMA_VERSION,
    {
        ConfigSchemaVersion(SUPPORTED_SCHEMA_VERSION)
    }

    /// Accepts only the supported version.
    pub fn validate(&self) -> (r: Result<(), ProviderConfigError>)
        ensures
            self.0 == SUPPORTED_SCHEMA_VERSION <==> r is Ok,
            r matches Err(e) ==> config_error_view(e) == unsupported_version(),
    {
        if self.0 == SUPPORTED_SCHEMA_VERSION {
            Ok(())
        } else {
            Err(
                ProviderConfigError::new(
                    "version",
                    ProviderConfigFailure::InvalidValue,
                    "unsupported provider configuration schema version",
                ),
            )
        }
    }
}

/// A configuration error as (field, failure, summary, source identifier).
pub type ConfigErrorView = (Seq<char>, ProviderConfigFailure, Seq<char>, Option<Seq<char>>);

/// The mathematical form of a configuration error.
pub open spec fn config_error_view(e: ProviderConfigError) -> ConfigErrorView {
    (e.spec_field(), e.spec_reason(), e.spec_summary(), e.spec_source())
}

/// The error for an unsupported schema version.
pub open spec fn unsupported_version() -> ConfigErrorView {
    (
        "version"@,
        ProviderConfigFailure::InvalidValue,
        "unsupported provider configuration schema version"@,
        None,
    )
}

/// The view of an optional owned text.
pub open spec fn text_view(text: Option<String>) -> Option<Seq<char>> {
    match text {
        Some(t) => Some(t@),
        None => None,
    }
}

/// One merged configuration value and the identifier of the source that supplied it.
#[derive(Debug)]
pub struct ResolvedField<T> {
    /// The merged value, when some source supplied one.
    pub value: Option<T>,
    /// The identifier of the source that supplied the value.
    pub source_id: Option<String>,
}

impl<T> ResolvedField<T> {
    /// Creates a resolved field.
    pub fn new(value: Option<T>, source_id: Option<&str>) -> (r: Self)
        ensures
            r.value == value,
            text_view(r.source_id) == match source_id {
                Some(s) => Some(s@),
                None => None,
            },
    {
        ResolvedField {
            value,
            source_id: match source_id {
                Some(s) => Some(s.to_owned()),
                None => None,
            },
        }
    }

    /// Returns the merged value, if any.
    pub fn value(&self) -> (r: Option<&T>)
        ensures
            match r {
                Some(v) => self.value == Some(*v),
                None => self.value is None,
            },
    {
        match &self.value {
            Some(v) => Some(v),
            None => None,
        }
    }

    /// Returns the identifier of the source that supplied the value, if any.
    pub fn source_id(&self) -> (r: Option<&str>)
        ensures
            match r {
                Some(s) => text_view(self.source_id) == Some(s@),
                None => self.source_id is None,
            },
    {
        match &self.source_id {
            Some(s) => Some(s.as_str()),
            None => None,
        }
    }
}

/// The source identifier of a field.
pub open spec fn source_of<T>(field: ResolvedField<T>) -> Option<Seq<char>> {
    text_view(field.source_id)
}

/// Where requests are sent, as written in configuration.
#[derive(Debug)]
pub enum EndpointSpec {
    /// A base URL and an endpoint path appended to it.
    BaseAndPath {
        /// Base API URL.
        base_url: String,
        /// Endpoint path.
        endpoint_path: String,
    },
    /// An absolute endpoint URL.
    Absolute {
        /// The endpoint URL.
        url: String,
    },
}

/// The credential audience a configuration names.
#[derive(Clone, Copy, Debug, PartialEq, Eq, Structural)]
pub enum CredentialAudienceSpec {
    /// The official OpenAI API.
    OfficialOpenAi,
    /// The official Anthropic API.
    OfficialAnthropic,
    /// The exact origin of the configured endpoint.
    EndpointOrigin,
}

/// The client identity a configuration names.
#[derive(Debug)]
pub struct ClientIdentityConfig {
    /// Product token.
    pub product: String,
    /// Version token.
    pub version: String,
}

/// The merged provider configuration, each field with its source.
#[derive(Debug)]
pub struct ProviderConfigSnapshot {
    /// Declared schema version.
    pub version: ConfigSchemaVersion,
    /// Provider identifier.
    pub provider_id: ResolvedField<String>,
    /// Protocol identifier.
    pub protocol_id: ResolvedField<String>,
    /// Endpoint.
    pub endpoint: ResolvedField<EndpointSpec>,
    /// Credential audience.
    pub credential_audience: ResolvedField<CredentialAudienceSpec>,
    /// Client identity.
    pub client_identity: ResolvedField<ClientIdentityConfig>,
    /// Largest HTTP error body read, in bytes.
    pub max_http_error_body_bytes: ResolvedField<usize>,
    /// Reference to the credential secret.
    pub credential: ResolvedField<SecretReference>,
}

impl ProviderConfigSnapshot {
    /// Returns the declared schema version.
    pub fn version(&self) -> (r: ConfigSchemaVersion)
        ensures
            r == self.version,
    {
        self.version
    }

    /// Returns the provider identifier field.
    pub fn provider_id_field(&self) -> (r: &ResolvedField<String>)
        ensures
            *r == self.provider_id,
    {
        &self.provider_id
    }

    /// Returns the protocol identifier field.
    pub fn protocol_id_field(&self) -> (r: &ResolvedField<String>)
        ensures
            *r == self.protocol_id,
    {
        &self.protocol_id
    }

    /// Returns the endpoint field.
    pub fn endpoint_field(&self) -> (r: &ResolvedField<EndpointSpec>)
        ensures
            *r == self.endpoint,
    {
        &self.endpoint
    }

    /// Returns the credential audience field.
    pub fn audience_field(&self) -> (r: &ResolvedField<CredentialAudienceSpec>)
        ensures
            *r == self.credential_audience,
    {
        &self.credential_audience
    }

    /// Returns the client identity field.
    pub fn identity_field(&self) -> (r: &ResolvedField<ClientIdentityConfig>)
        ensures
            *r == self.client_identity,
    {
        &self.client_identity
    }

    /// Returns the HTTP error body limit field.
    pub fn error_limit_field(&self) -> (r: &ResolvedField<usize>)
        ensures
            *r == self.max_http_error_body_bytes,
    {
        &self.max_http_error_body_bytes
    }

    /// Returns the credential reference field.
    pub fn credential_field(&self) -> (r: &ResolvedField<SecretReference>)
        ensures
            *r == self.credential,
    {
        &self.credential
    }

    /// Returns the merged credential audience, if any.
    pub fn credential_audience(&self) -> (r: Option<CredentialAudienceSpec>)
        ensures
            r == self.credential_audience.value,
    {
        self.credential_audience.value
    }
}

/// The error for a required field that no source supplied.
pub open spec fn missing_error<T>(field: ResolvedField<T>, name: Seq<char>) -> ConfigErrorView {
    (
        name,
        ProviderConfigFailure::MissingRequiredField,
        "required provider configuration field is absent"@,
        source_of(field),
    )
}

/// The error for an invalid value of `field`.
pub open spec fn invalid_error<T>(
    field: ResolvedField<T>,
    name: Seq<char>,
    summary: Seq<char>,
) -> ConfigErrorView {
    (name, ProviderConfigFailure::InvalidValue, summary, source_of(field))
}

/// The error for a value that a built-in profile does not let configuration change.
pub open spec fn forbidden_error<T>(
    field: ResolvedField<T>,
    name: Seq<char>,
    summary: Seq<char>,
) -> ConfigErrorView {
    (name, ProviderConfigFailure::ForbiddenOverride, summary, source_of(field))
}

/// Whether an endpoint specification compiles: its texts fit their bounds and its URL
/// parses.
pub open spec fn endpoint_spec_ok(spec: EndpointSpec) -> bool {
    match spec {
        EndpointSpec::BaseAndPath { base_url, endpoint_path } => utf8_len(base_url@) <= 2048
            && utf8_len(endpoint_path@) <= 1024 && parsed_url_facts(base_url@) is Some,
        EndpointSpec::Absolute { url } => utf8_len(url@) <= 3072 && parsed_url_facts(url@) is Some,
    }
}

/// Whether a product and version form a client identity on their own.
pub open spec fn plain_identity_ok(product: Seq<char>, version: Seq<char>) -> bool {
    &&& is_identity_token(product)
    &&& is_identity_token(version)
    &&& !impersonates(product)
    &&& user_agent_rejection(plain_identity(product, version)) is None
}

/// The identity made of a product and version alone.
pub open spec fn plain_identity(product: Seq<char>, version: Seq<char>) -> IdentityView {
    IdentityView {
        product: product,
        version: version,
        contact: None,
        application: None,
        fragments: Seq::empty(),
    }
}

/// The first problem of a merged configuration, in the order the checks are made, or
/// `None` when it is consistent.
pub open spec fn snapshot_rejection(s: ProviderConfigSnapshot) -> Option<ConfigErrorView> {
    if s.version.0 != SUPPORTED_SCHEMA_VERSION {
        Some(unsupported_version())
    } else if s.provider_id.value is None {
        Some(missing_error(s.provider_id, "provider_id"@))
    } else if s.protocol_id.value is None {
        Some(missing_error(s.protocol_id, "protocol_id"@))
    } else if s.endpoint.value is None {
        Some(missing_error(s.endpoint, "endpoint"@))
    } else if s.credential_audience.value is None {
        Some(missing_error(s.credential_audience, "credential_audience"@))
    } else if s.client_identity.value is None {
        Some(missing_error(s.client_identity, "client_identity"@))
    } else if identifier_rejection(s.provider_id.value->0@) is Some {
        Some(invalid_error(s.provider_id, "provider_id"@, "provider identifier is invalid"@))
    } else if identifier_rejection(s.protocol_id.value->0@) is Some {
        Some(invalid_error(s.protocol_id, "protocol_id"@, "protocol identifier is invalid"@))
    } else if s.max_http_error_body_bytes.value is None {
        Some(missing_error(s.max_http_error_body_bytes, "max_http_error_body_bytes"@))
    } else if s.max_http_error_body_bytes.value->0 == 0 || s.max_http_error_body_bytes.value->0
        > MAX_ERROR_BODY_LIMIT {
        Some(
            invalid_error(
                s.max_http_error_body_bytes,
                "max_http_error_body_bytes"@,
                "HTTP error body limit must be between 1 byte and 1 MiB"@,
            ),
        )
    } else if !endpoint_spec_ok(s.endpoint.value->0) {
        Some(invalid_error(s.endpoint, "endpoint"@, "endpoint configuration is invalid"@))
    } else if !plain_identity_ok(
        s.client_identity.value->0.product@,
        s.client_identity.value->0.version@,
    ) {
        Some(
            invalid_error(
                s.client_identity,
                "client_identity"@,
                "client identity configuration is invalid"@,
            ),
        )
    } else if s.credential.value matches Some(reference) && !env_name_ok(reference.spec_name()) {
        Some(
            (
                "credential.name"@,
                ProviderConfigFailure::InvalidValue,
                "environment secret reference must be a valid variable name"@,
                source_of(s.credential),
            ),
        )
    } else {
        None
    }
}

/// Attributes `error` to `source`, when there is one.
fn with_source(error: ProviderConfigError, source: Option<&str>) -> (r: ProviderConfigError)
    ensures
        r.spec_field() == error.spec_field(),
        r.spec_reason() == error.spec_reason(),
        r.spec_summary() == error.spec_summary(),
        r.spec_source() == match source {
            Some(s) => Some(s@),
            None => error.spec_source(),
        },
{
    match source {
        Some(source) => error.with_source(source),
        None => error,
    }
}

/// The error `(name, failure, summary)` attributed to the source of `field`.
fn field_error<T>(
    field: &ResolvedField<T>,
    name: &str,
    failure: ProviderConfigFailure,
    summary: &str,
) -> (r: ProviderConfigError)
    ensures
        config_error_view(r) == (name@, failure, summary@, source_of(*field)),
{
    with_source(ProviderConfigError::new(name, failure, summary), field.source_id())
}

/// Returns the value of a required field.
fn required<'a, T>(field: &'a ResolvedField<T>, name: &str) -> (r: Result<
    &'a T,
    ProviderConfigError,
>)
    ensures
        match field.value {
            Some(v) => r matches Ok(x) && *x == v,
            None => r matches Err(e) && config_error_view(e) == missing_error(*field, name@),
        },
{
    match field.value() {
        Some(v) => Ok(v),
        None => Err(
            field_error(
                field,
                name,
                ProviderConfigFailure::MissingRequiredField,
                "required provider configuration field is absent",
            ),
        ),
    }
}

/// Compiles an endpoint specification after checking its length bounds.
pub fn compile_endpoint(spec: &EndpointSpec) -> (r: Result<EndpointConfig, LlmError>)
    ensures
        match *spec {
            EndpointSpec::BaseAndPath { base_url, endpoint_path } => if utf8_len(base_url@)
                > 2048 || utf8_len(endpoint_path@) > 1024 {
                r matches Err(e) && is_configuration(
                    e,
                    "endpoint configuration exceeds bounded lengths"@,
                )
            } else {
                match parsed_url_facts(base_url@) {
                    None => r matches Err(e) && is_configuration(e, "invalid base URL"@),
                    Some(url) => r matches Ok(
                        EndpointConfig::BaseAndPath { base_url: b, endpoint_path: p },
                    ) && b@ == url && p@ == endpoint_path@,
                }
            },
            EndpointSpec::Absolute { url } => if utf8_len(url@) > 3072 {
                r matches Err(e) && is_configuration(
                    e,
                    "endpoint configuration exceeds bounded lengths"@,
                )
            } else {
                match parsed_url_facts(url@) {
                    None => r matches Err(e) && is_configuration(e, "invalid absolute endpoint"@),
                    Some(facts) => r matches Ok(EndpointConfig::Absolute { url: u, .. }) && u@
                        == facts,
                }
            },
        },
{
    match spec {
        EndpointSpec::BaseAndPath { base_url, endpoint_path } => {
            if utf8_len_exceeds(base_url.as_str(), 2048) || utf8_len_exceeds(
                endpoint_path.as_str(),
                1024,
            ) {
                return Err(
                    crate::error::configuration("endpoint configuration exceeds bounded lengths"),
                );
            }
            EndpointConfig::base_and_path(base_url.as_str(), endpoint_path.as_str())
        },
        EndpointSpec::Absolute { url } => {
            if utf8_len_exceeds(url.as_str(), 3072) {
                return Err(
                    crate::error::configuration("endpoint configuration exceeds bounded lengths"),
                );
            }
            EndpointConfig::absolute(url.as_str())
        },
    }
}

/// Checks a merged configuration: schema version, required fields, identifiers, the
/// error body limit, the endpoint, the client identity and the credential reference, in
/// that order, attributing each error to the source of the offending field.
pub fn validate_snapshot(snapshot: &ProviderConfigSnapshot) -> (r: Result<(), ProviderConfigError>)
    ensures
        match snapshot_rejection(*snapshot) {
            None => r is Ok,
            Some(v) => r matches Err(e) && config_error_view(e) == v,
        },
{
    snapshot.version().validate()?;
    let provider_id = required(snapshot.provider_id_field(), "provider_id")?;
    let protocol_id = required(snapshot.protocol_id_field(), "protocol_id")?;
    required(snapshot.endpoint_field(), "endpoint")?;
    required(snapshot.audience_field(), "credential_audience")?;
    required(snapshot.identity_field(), "client_identity")?;
    if ProviderId::new(provider_id.as_str()).is_err() {
        return Err(
            field_error(
                snapshot.provider_id_field(),
                "provider_id",
                ProviderConfigFailure::InvalidValue,
                "provider identifier is invalid",
            ),
        );
    }
    if ProtocolId::new(protocol_id.as_str()).is_err() {
        return Err(
            field_error(
                snapshot.protocol_id_field(),
                "protocol_id",
                ProviderConfigFailure::InvalidValue,
                "protocol identifier is invalid",
            ),
        );
    }
    let limit = *required(snapshot.error_limit_field(), "max_http_error_body_bytes")?;
    if limit == 0 || limit > MAX_ERROR_BODY_LIMIT {
        return Err(
            field_error(
                snapshot.error_limit_field(),
                "max_http_error_body_bytes",
                ProviderConfigFailure::InvalidValue,
                "HTTP error body limit must be between 1 byte and 1 MiB",
            ),
        );
    }
    if let Some(endpoint) = snapshot.endpoint_field().value() {
        if compile_endpoint(endpoint).is_err() {
            return Err(
                field_error(
                    snapshot.endpoint_field(),
                    "endpoint",
                    ProviderConfigFailure::InvalidValue,
                    "endpoint configuration is invalid",
                ),
            );
        }
    }
    if let Some(identity) = snapshot.identity_field().value() {
        if ClientIdentity::new(identity.product.as_str(), identity.version.as_str()).is_err() {
            return Err(
                field_error(
                    snapshot.identity_field(),
                    "client_identity",
                    ProviderConfigFailure::InvalidValue,
                    "client identity configuration is invalid",
                ),
            );
        }
    }
    if let Some(reference) = snapshot.credential_field().value() {
        match reference.validate() {
            Ok(()) => {},
            Err(error) => {
                return Err(with_source(error, snapshot.credential_field().source_id()));
            },
        }
    }
    Ok(())
}

/// What an official profile takes from a checked configuration; the credential is still a
/// reference, resolved by the caller.
#[derive(Debug)]
pub struct OfficialProfileInputs {
    /// Reference to the credential secret.
    pub credential: SecretReference,
    /// Client identity.
    pub client_identity: ClientIdentity,
    /// Largest HTTP error body read, in bytes.
    pub max_http_error_body_bytes: usize,
}

/// Whether the configured endpoint is the fixed base URL and path of an official profile:
/// the same parsed base URL and the same path.
pub open spec fn is_official_endpoint(spec: EndpointSpec, base: Seq<char>, path: Seq<char>) -> bool {
    spec matches EndpointSpec::BaseAndPath { base_url, endpoint_path } && endpoint_path@ == path
        && parsed_url_facts(base_url@)->0.serialization == parsed_url_facts(base)->0.serialization
}

/// The first reason a configuration cannot compile into the official profile with these
/// identities, audience and endpoint: a configuration error, or the message of a plain
/// configuration error; `None` when it can.
pub open spec fn official_rejection(
    s: ProviderConfigSnapshot,
    provider: Seq<char>,
    protocol: Seq<char>,
    audience: CredentialAudienceSpec,
    base: Seq<char>,
    path: Seq<char>,
) -> Option<Result<ConfigErrorView, Seq<char>>> {
    if snapshot_rejection(s) is Some {
        Some(Ok(snapshot_rejection(s)->0))
    } else if s.provider_id.value->0@ != provider {
        Some(
            Ok(
                forbidden_error(
                    s.provider_id,
                    "provider_id"@,
                    "built-in profile identity cannot be overridden"@,
                ),
            ),
        )
    } else if s.protocol_id.value->0@ != protocol {
        Some(
            Ok(
                forbidden_error(
                    s.protocol_id,
                    "protocol_id"@,
                    "built-in profile identity cannot be overridden"@,
                ),
            ),
        )
    } else if s.credential_audience.value != Some(audience) {
        Some(
            Ok(
                forbidden_error(
                    s.credential_audience,
                    "credential_audience"@,
                    "official profile requires the official credential audience"@,
                ),
            ),
        )
    } else if parsed_url_facts(base) is None {
        Some(Err("invalid base URL"@))
    } else if !is_official_endpoint(s.endpoint.value->0, base, path) {
        Some(
            Ok(
                forbidden_error(
                    s.endpoint,
                    "endpoint"@,
                    "official profile endpoint cannot be overridden"@,
                ),
            ),
        )
    } else if s.credential.value is None {
        Some(Ok(missing_error(s.credential, "credential"@)))
    } else {
        None
    }
}

/// `r` answers checking `s` against an official profile.
pub open spec fn official_checked(
    s: ProviderConfigSnapshot,
    provider: Seq<char>,
    protocol: Seq<char>,
    audience: CredentialAudienceSpec,
    base: Seq<char>,
    path: Seq<char>,
    r: Result<OfficialProfileInputs, LlmError>,
) -> bool {
    match official_rejection(s, provider, protocol, audience, base, path) {
        Some(Ok(v)) => r matches Err(LlmError::ProviderConfig(e)) && config_error_view(e) == v,
        Some(Err(message)) => r matches Err(e) && is_configuration(e, message),
        None => r matches Ok(inputs) && inputs.credential.spec_name()
            == s.credential.value->0.spec_name() && inputs.client_identity@ == plain_identity(
            s.client_identity.value->0.product@,
            s.client_identity.value->0.version@,
        ) && inputs.max_http_error_body_bytes == s.max_http_error_body_bytes.value->0,
    }
}

/// Requires a field to hold exactly `expected`.
fn require_exact(field: &ResolvedField<String>, expected: &str, name: &str) -> (r: Result<
    (),
    ProviderConfigError,
>)
    ensures
        match field.value {
            None => r matches Err(e) && config_error_view(e) == missing_error(*field, name@),
            Some(v) => if v@ == expected@ {
                r is Ok
            } else {
                r matches Err(e) && config_error_view(e) == forbidden_error(
                    *field,
                    name@,
                    "built-in profile identity cannot be overridden"@,
                )
            },
        },
{
    let value = required(field, name)?;
    if str_eq(value.as_str(), expected) {
        Ok(())
    } else {
        Err(
            field_error(
                field,
                name,
                ProviderConfigFailure::ForbiddenOverride,
                "built-in profile identity cannot be overridden",
            ),
        )
    }
}

/// Whether a compiled endpoint is the same base-and-path endpoint as `expected`.
fn same_base_and_path(actual: &EndpointConfig, expected: &EndpointConfig) -> (r: bool)
    ensures
        r == (actual matches EndpointConfig::BaseAndPath { base_url: a, endpoint_path: p }
            && expected matches EndpointConfig::BaseAndPath { base_url: b, endpoint_path: q }
            && a@.serialization == b@.serialization && p@ == q@),
{
    match (actual, expected) {
        (
            EndpointConfig::BaseAndPath { base_url: a, endpoint_path: p },
            EndpointConfig::BaseAndPath { base_url: b, endpoint_path: q },
        ) => str_eq(a.serialization.as_str(), b.serialization.as_str()) && str_eq(
            p.as_str(),
            q.as_str(),
        ),
        _ => false,
    }
}

impl ProviderConfigSnapshot {
    /// Checks this configuration against an official profile and returns what the profile
    /// takes from it.
    fn check_official(
        &self,
        provider: &str,
        protocol: &str,
        audience: CredentialAudienceSpec,
        base_url: &str,
        endpoint_path: &str,
    ) -> (r: Result<OfficialProfileInputs, LlmError>)
        ensures
            official_checked(*self, provider@, protocol@, audience, base_url@, endpoint_path@, r),
    {
        if let Err(e) = validate_snapshot(self) {
            return Err(LlmError::ProviderConfig(e));
        }
        if let Err(e) = require_exact(self.provider_id_field(), provider, "provider_id") {
            return Err(LlmError::ProviderConfig(e));
        }
        if let Err(e) = require_exact(self.protocol_id_field(), protocol, "protocol_id") {
            return Err(LlmError::ProviderConfig(e));
        }
        let matches_audience = match self.credential_audience() {
            Some(a) => a == audience,
            None => false,
        };
        if !matches_audience {
            return Err(
                LlmError::ProviderConfig(
                    field_error(
                        self.audience_field(),
                        "credential_audience",
                        ProviderConfigFailure::ForbiddenOverride,
                        "official profile requires the official credential audience",
                    ),
                ),
            );
        }
        let expected = EndpointConfig::base_and_path(base_url, endpoint_path)?;
        let endpoint = match required(self.endpoint_field(), "endpoint") {
            Ok(endpoint) => endpoint,
            Err(e) => {
                return Err(LlmError::ProviderConfig(e));
            },
        };
        let actual = compile_endpoint(endpoint)?;
        if !same_base_and_path(&actual, &expected) {
            return Err(
                LlmError::ProviderConfig(
                    field_error(
                        self.endpoint_field(),
                        "endpoint",
                        ProviderConfigFailure::ForbiddenOverride,
                        "official profile endpoint cannot be overridden",
                    ),
                ),
            );
        }
        let reference = match required(self.credential_field(), "credential") {
            Ok(reference) => reference.clone(),
            Err(e) => {
                return Err(LlmError::ProviderConfig(e));
            },
        };
        let identity = match required(self.identity_field(), "client_identity") {
            Ok(identity) => identity,
            Err(e) => {
                return Err(LlmError::ProviderConfig(e));
            },
        };
        let client_identity = ClientIdentity::new(
            identity.product.as_str(),
            identity.version.as_str(),
        )?;
        let limit = match required(self.error_limit_field(), "max_http_error_body_bytes") {
            Ok(limit) => *limit,
            Err(e) => {
                return Err(LlmError::ProviderConfig(e));
            },
        };
        Ok(
            OfficialProfileInputs {
                credential: reference,
                client_identity,
                max_http_error_body_bytes: limit,
            },
        )
    }

    /// Checks this configuration against the official OpenAI Chat Completions profile:
    /// its identities, audience and endpoint cannot be overridden.
    pub fn official_openai_inputs(&self) -> (r: Result<OfficialProfileInputs, LlmError>)
        ensures
            official_checked(
                *self,
                "official-openai"@,
                "openai-chat-completions"@,
                CredentialAudienceSpec::OfficialOpenAi,
                "https://api.openai.com/v1"@,
                "/chat/completions"@,
                r,
            ),
    {
        self.check_official(
            "official-openai",
            "openai-chat-completions",
            CredentialAudienceSpec::OfficialOpenAi,
            "https://api.openai.com/v1",
            "/chat/completions",
        )
    }

    /// Checks this configuration against the official Anthropic Messages profile: its
    /// identities, audience and endpoint cannot be overridden.
    pub fn official_anthropic_inputs(&self) -> (r: Result<OfficialProfileInputs, LlmError>)
        ensures
            official_checked(
                *self,
                "official-anthropic"@,
                "anthropic-messages"@,
                CredentialAudienceSpec::OfficialAnthropic,
                "https://api.anthropic.com/v1"@,
                "/messages"@,
                r,
            ),
    {
        self.check_official(
            "official-anthropic",
            "anthropic-messages",
            CredentialAudienceSpec::OfficialAnthropic,
            "https://api.anthropic.com/v1",
            "/messages",
        )
    }
}

/// A configuration that an official profile accepts names exactly that profile's provider,
/// protocol and credential audience, and exactly its base URL and endpoint path: no layer
/// can move official credentials to another identity or endpoint.
pub proof fn lemma_official_accepts_only_its_identity(
    s: ProviderConfigSnapshot,
    provider: Seq<char>,
    protocol: Seq<char>,
    audience: CredentialAudienceSpec,
    base: Seq<char>,
    path: Seq<char>,
)
    requires
        official_rejection(s, provider, protocol, audience, base, path) is None,
    ensures
        snapshot_rejection(s) is None,
        s.provider_id.value matches Some(p) && p@ == provider,
        s.protocol_id.value matches Some(p) && p@ == protocol,
        s.credential_audience.value == Some(audience),
        s.endpoint.value matches Some(EndpointSpec::BaseAndPath { base_url, endpoint_path })
            && endpoint_path@ == path && parsed_url_facts(base_url@)->0.serialization
            == parsed_url_facts(base)->0.serialization,
        s.credential.value is Some,
{
}

} // verus!
