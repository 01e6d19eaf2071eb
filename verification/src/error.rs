//! Value-free error types shared by the provider layer.

use vstd::prelude::*;

verus! {

/// Stable reason attached to a validation failure.
#[derive(Clone, Copy, Debug, PartialEq, Eq, Structural)]
pub enum ValidationReason {
    /// A required value was empty.
    Empty,
    /// A value carried leading or trailing white space.
    BoundaryWhitespace,
    /// A value was outside its permitted range.
    OutOfRange,
    /// An identifier contained unsupported characters.
    InvalidIdentifier,
    /// A value cannot be carried by an HTTP header.
    InvalidHeader,
    /// Two declarations contradict each other.
    Conflict,
    /// The selected target explicitly does not support the request.
    CapabilityUnsupported,
    /// Support of the selected target for the request is unknown.
    CapabilityUnknown,
    /// A protected header was missing or overridden.
    ProtectedHeader,
}

/// A field-scoped validation failure with a fixed, value-free summary.
#[derive(Clone, Debug)]
pub struct ValidationError {
    field: String,
    reason: ValidationReason,
    summary: String,
}

impl ValidationError {
    pub closed spec fn spec_field(&self) -> Seq<char> {
        self.field@
    }

    pub closed spec fn spec_reason(&self) -> ValidationReason {
        self.reason
    }

    pub closed spec fn spec_summary(&self) -> Seq<char> {
        self.summary@
    }

    /// Creates a validation error.
    pub fn new(field: &str, reason: ValidationReason, summary: &str) -> (r: Self)
        ensures
            r.spec_field() == field@,
            r.spec_reason() == reason,
            r.spec_summary() == summary@,
    {
        ValidationError { field: field.to_owned(), reason, summary: summary.to_owned() }
    }

    /// Returns the stable field path.
    pub fn field(&self) -> (r: &str)
        ensures
            r@ == self.spec_field(),
    {
        self.field.as_str()
    }

    /// Returns the failure reason.
    pub fn reason(&self) -> (r: ValidationReason)
        ensures
            r == self.spec_reason(),
    {
        self.reason
    }

    /// Returns the fixed summary.
    pub fn summary(&self) -> (r: &str)
        ensures
            r@ == self.spec_summary(),
    {
        self.summary.as_str()
    }
}

/// `v` is the validation error for `field` with `reason` and `summary`.
pub open spec fn validation_is(
    v: ValidationError,
    field: Seq<char>,
    reason: ValidationReason,
    summary: Seq<char>,
) -> bool {
    v.spec_field() == field && v.spec_reason() == reason && v.spec_summary() == summary
}

/// Stable failure class of a provider configuration error.
#[derive(Clone, Copy, Debug, PartialEq, Eq, Structural)]
pub enum ProviderConfigFailure {
    /// A value failed validation.
    InvalidValue,
    /// A referenced secret could not be read.
    SecretUnavailable,
    /// A required field was absent.
    MissingRequiredField,
    /// A layer tried to override a value that it may not change.
    ForbiddenOverride,
}

/// A value-free provider configuration error.
#[derive(Clone, Debug)]
pub struct ProviderConfigError {
    field: String,
    reason: ProviderConfigFailure,
    summary: String,
    source: Option<String>,
}

impl ProviderConfigError {
    pub closed spec fn spec_field(&self) -> Seq<char> {
        self.field@
    }

    pub closed spec fn spec_reason(&self) -> ProviderConfigFailure {
        self.reason
    }

    pub closed spec fn spec_summary(&self) -> Seq<char> {
        self.summary@
    }

    pub closed spec fn spec_source(&self) -> Option<Seq<char>> {
        match self.source {
            Some(s) => Some(s@),
            None => None,
        }
    }

    /// Creates a configuration error that names no configuration source.
    pub fn new(field: &str, reason: ProviderConfigFailure, summary: &str) -> (r: Self)
        ensures
            r.spec_field() == field@,
            r.spec_reason() == reason,
            r.spec_summary() == summary@,
            r.spec_source() is None,
    {
        ProviderConfigError {
            field: field.to_owned(),
            reason,
            summary: summary.to_owned(),
            source: None,
        }
    }

    /// Attributes the error to the configuration source with identifier `source`.
    pub fn with_source(self, source: &str) -> (r: Self)
        ensures
            r.spec_field() == self.spec_field(),
            r.spec_reason() == self.spec_reason(),
            r.spec_summary() == self.spec_summary(),
            r.spec_source() == Some(source@),
    {
        ProviderConfigError {
            field: self.field,
            reason: self.reason,
            summary: self.summary,
            source: Some(source.to_owned()),
        }
    }

    /// Returns the identifier of the source the error is attributed to, if any.
    pub fn source(&self) -> (r: Option<&str>)
        ensures
            match r {
                Some(s) => self.spec_source() == Some(s@),
                None => self.spec_source() is None,
            },
    {
        match &self.source {
            Some(s) => Some(s.as_str()),
            None => None,
        }
    }

    /// Returns the stable field path.
    pub fn field(&self) -> (r: &str)
        ensures
            r@ == self.spec_field(),
    {
        self.field.as_str()
    }

    /// Returns the failure class.
    pub fn reason(&self) -> (r: ProviderConfigFailure)
        ensures
            r == self.spec_reason(),
    {
        self.reason
    }

    /// Returns the fixed summary.
    pub fn summary(&self) -> (r: &str)
        ensures
            r@ == self.spec_summary(),
    {
        self.summary.as_str()
    }
}

/// `e` is the configuration error for `field` with `reason` and `summary`.
pub open spec fn config_error_is(
    e: ProviderConfigError,
    field: Seq<char>,
    reason: ProviderConfigFailure,
    summary: Seq<char>,
) -> bool {
    e.spec_field() == field && e.spec_reason() == reason && e.spec_summary() == summary
        && e.spec_source() is None
}

/// Top-level error returned by provider construction and validation.
#[derive(Clone, Debug)]
pub enum LlmError {
    /// Invalid static configuration, with a fixed message.
    Configuration(String),
    /// A field-scoped validation failure.
    Validation(ValidationError),
    /// A provider configuration failure.
    ProviderConfig(ProviderConfigError),
    /// A dynamic Header policy failure.
    HeaderPolicy(HeaderPolicyError),
    /// A credential acquisition failure.
    Credential(CredentialError),
    /// A provider registration failure.
    Registry(ProviderRegistryError),
}

/// Stable failure class of a credential acquisition.
#[derive(Clone, Copy, Debug, PartialEq, Eq, Structural)]
pub enum CredentialFailure {
    /// The credential, or the context it was requested for, is unusable.
    Invalid,
    /// The credential source did not answer in time.
    Timeout,
    /// No credential is immediately available.
    Unavailable,
}

/// A value-free credential error.
#[derive(Clone, Copy, Debug, PartialEq, Eq, Structural)]
pub struct CredentialError {
    failure: CredentialFailure,
}

impl CredentialError {
    /// Creates an error of one failure class.
    pub fn new(failure: CredentialFailure) -> (r: Self)
        ensures
            r.spec_failure() == failure,
    {
        CredentialError { failure }
    }

    pub closed spec fn spec_failure(&self) -> CredentialFailure {
        self.failure
    }

    /// Returns the failure class.
    pub fn failure(&self) -> (r: CredentialFailure)
        ensures
            r == self.spec_failure(),
    {
        self.failure
    }
}

/// `e` is the credential error of `failure`.
pub open spec fn is_credential(e: LlmError, failure: CredentialFailure) -> bool {
    match e {
        LlmError::Credential(c) => c.spec_failure() == failure,
        _ => false,
    }
}

/// Builds a credential error.
pub fn credential(failure: CredentialFailure) -> (r: LlmError)
    ensures
        is_credential(r, failure),
{
    LlmError::Credential(CredentialError::new(failure))
}

/// Stable failure class of a dynamic Header policy.
#[derive(Clone, Copy, Debug, PartialEq, Eq, Structural)]
pub enum HeaderPolicyFailure {
    /// The policy or an operation is outside the allowlist or protected.
    InvalidOperation,
    /// The callback did not finish in time, or the timeout is unusable.
    Timeout,
    /// An operation or byte budget is exceeded or unusable.
    BudgetExceeded,
    /// The callback failed.
    Callback,
}

/// A value-free dynamic Header policy error.
#[derive(Clone, Copy, Debug, PartialEq, Eq, Structural)]
pub struct HeaderPolicyError {
    failure: HeaderPolicyFailure,
}

impl HeaderPolicyError {
    /// Creates an error of one failure class.
    pub fn new(failure: HeaderPolicyFailure) -> (r: Self)
        ensures
            r.spec_failure() == failure,
    {
        HeaderPolicyError { failure }
    }

    pub closed spec fn spec_failure(&self) -> HeaderPolicyFailure {
        self.failure
    }

    /// Returns the failure class.
    pub fn failure(&self) -> (r: HeaderPolicyFailure)
        ensures
            r == self.spec_failure(),
    {
        self.failure
    }
}

/// `e` is the dynamic Header policy error of `failure`.
pub open spec fn is_header_policy(e: LlmError, failure: HeaderPolicyFailure) -> bool {
    match e {
        LlmError::HeaderPolicy(h) => h.spec_failure() == failure,
        _ => false,
    }
}

/// Builds a dynamic Header policy error.
pub fn header_policy(failure: HeaderPolicyFailure) -> (r: LlmError)
    ensures
        is_header_policy(r, failure),
{
    LlmError::HeaderPolicy(HeaderPolicyError::new(failure))
}

/// `e` is a configuration error carrying exactly `message`.
pub open spec fn is_configuration(e: LlmError, message: Seq<char>) -> bool {
    match e {
        LlmError::Configuration(m) => m@ == message,
        _ => false,
    }
}

/// `e` is the validation error for `field` with `reason` and `summary`.
pub open spec fn is_validation(
    e: LlmError,
    field: Seq<char>,
    reason: ValidationReason,
    summary: Seq<char>,
) -> bool {
    match e {
        LlmError::Validation(v) => validation_is(v, field, reason, summary),
        _ => false,
    }
}

/// Builds a configuration error with a fixed message.
pub fn configuration(message: &str) -> (r: LlmError)
    ensures
        is_configuration(r, message@),
{
    LlmError::Configuration(message.to_owned())
}

/// Builds a field-scoped validation error.
pub fn validation(field: &str, reason: ValidationReason, summary: &str) -> (r: LlmError)
    ensures
        is_validation(r, field@, reason, summary@),
{
    LlmError::Validation(ValidationError::new(field, reason, summary))
}

/// Stable failure class of a provider registration error.
#[derive(Clone, Copy, Debug, PartialEq, Eq, Structural)]
pub enum ProviderRegistryFailure {
    /// The provider identifier is not acceptable.
    InvalidProviderId,
    /// The registration version is not acceptable.
    InvalidVersion,
    /// A registration with the same key exists.
    DuplicateRegistration,
    /// No registration has the requested key.
    RegistrationNotFound,
    /// A deployment or a built runtime names another provider than the one selected.
    FactoryProviderMismatch,
    /// The shared registration state cannot be read or written.
    StateUnavailable,
}

/// A value-free provider registration error.
#[derive(Clone, Debug)]
pub struct ProviderRegistryError {
    failure: ProviderRegistryFailure,
    provider_id: Option<String>,
    summary: String,
}

impl ProviderRegistryError {
    pub closed spec fn spec_failure(&self) -> ProviderRegistryFailure {
        self.failure
    }

    pub closed spec fn spec_provider_id(&self) -> Option<Seq<char>> {
        match self.provider_id {
            Some(p) => Some(p@),
            None => None,
        }
    }

    pub closed spec fn spec_summary(&self) -> Seq<char> {
        self.summary@
    }

    /// Creates a registration error, optionally naming the provider.
    pub fn new(failure: ProviderRegistryFailure, provider_id: Option<&str>, summary: &str) -> (r: Self)
        ensures
            r.spec_failure() == failure,
            r.spec_provider_id() == match provider_id {
                Some(p) => Some(p@),
                None => None,
            },
            r.spec_summary() == summary@,
    {
        ProviderRegistryError {
            failure,
            provider_id: match provider_id {
                Some(p) => Some(p.to_owned()),
                None => None,
            },
            summary: summary.to_owned(),
        }
    }

    /// Returns the failure class.
    pub fn failure(&self) -> (r: ProviderRegistryFailure)
        ensures
            r == self.spec_failure(),
    {
        self.failure
    }

    /// Returns the provider the error concerns, if named.
    pub fn provider_id(&self) -> (r: Option<&str>)
        ensures
            match r {
                Some(p) => self.spec_provider_id() == Some(p@),
                None => self.spec_provider_id() is None,
            },
    {
        match &self.provider_id {
            Some(p) => Some(p.as_str()),
            None => None,
        }
    }

    /// Returns the fixed summary.
    pub fn summary(&self) -> (r: &str)
        ensures
            r@ == self.spec_summary(),
    {
        self.summary.as_str()
    }
}

}
