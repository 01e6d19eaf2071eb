//! Configuration source identity and value provenance.

use vstd::prelude::*;

use crate::domain::identifier_rejection;
use crate::error::{config_error_is, ProviderConfigError, ProviderConfigFailure};
use crate::text::{
    all_chars_in, all_in_set, boundary_whitespace, byte_len_exceeds_256, has_boundary_whitespace,
    owned, utf8_len, utf8_len_exceeds, CharSet,
};

verus! {

/// The source class used to order configuration layers.
#[derive(Clone, Copy, Debug, PartialEq, Eq, Structural)]
pub enum ConfigSourceKind {
    /// Defaults owned by the protocol implementation.
    ProtocolDefault,
    /// Defaults owned by a built-in provider profile.
    BuiltInProfile,
    /// A user-authored configuration document.
    UserConfig,
    /// An explicit reference to one environment secret.
    EnvironmentSecretReference,
    /// An application-provided programmatic override.
    ProgrammaticOverride,
    /// A request-scoped safe override. Provider configuration rejects this class.
    PerRequestSafeOverride,
}

/// The merge precedence of each source class, lowest first.
pub open spec fn kind_precedence(kind: ConfigSourceKind) -> u8 {
    match kind {
        ConfigSourceKind::ProtocolDefault => 0,
        ConfigSourceKind::BuiltInProfile => 1,
        ConfigSourceKind::UserConfig => 2,
        ConfigSourceKind::EnvironmentSecretReference => 3,
        ConfigSourceKind::ProgrammaticOverride => 4,
        ConfigSourceKind::PerRequestSafeOverride => 5,
    }
}

impl ConfigSourceKind {
    /// Returns the stable merge precedence.
    pub fn precedence(self) -> (r: u8)
        ensures
            r == kind_precedence(self),
    {
        match self {
            ConfigSourceKind::ProtocolDefault => 0,
            ConfigSourceKind::BuiltInProfile => 1,
            ConfigSourceKind::UserConfig => 2,
            ConfigSourceKind::EnvironmentSecretReference => 3,
            ConfigSourceKind::ProgrammaticOverride => 4,
            ConfigSourceKind::PerRequestSafeOverride => 5,
        }
    }
}

/// Distinct source classes have distinct precedences, so layers order totally.
pub proof fn lemma_precedence_is_injective(a: ConfigSourceKind, b: ConfigSourceKind)
    ensures
        kind_precedence(a) == kind_precedence(b) <==> a == b,
{
}

/// Why a source identifier is rejected, as the summary, or `None` when it is valid.
pub open spec fn source_id_rejection(value: Seq<char>) -> Option<Seq<char>> {
    if value.len() == 0 || has_boundary_whitespace(value) || utf8_len(value) > 128 {
        Some("source id must be non-empty, bounded, and have no boundary whitespace"@)
    } else if !all_in_set(value, CharSet::SourceId) {
        Some("source id contains an unsupported character"@)
    } else {
        None
    }
}

/// `r` answers the source identifier check of `value`.
pub open spec fn source_id_checked<T>(value: Seq<char>, r: Result<T, ProviderConfigError>) -> bool {
    match source_id_rejection(value) {
        Some(summary) => r matches Err(e) && config_error_is(
            e,
            "source.id"@,
            ProviderConfigFailure::InvalidValue,
            summary,
        ),
        None => r is Ok,
    }
}

/// A validated, non-secret source identifier.
#[derive(Debug)]
pub struct ConfigSourceId(String);

impl View for ConfigSourceId {
    type V = Seq<char>;

    closed spec fn view(&self) -> Seq<char> {
        self.0@
    }
}

impl Clone for ConfigSourceId {
    fn clone(&self) -> (r: Self)
        ensures
            r@ == self@,
    {
        ConfigSourceId(self.0.clone())
    }
}

impl ConfigSourceId {
    /// Creates a source identifier without trimming or normalizing it.
    pub fn new(value: &str) -> (r: Result<Self, ProviderConfigError>)
        ensures
            source_id_checked(value@, r),
            r matches Ok(id) ==> id@ == value@,
    {
        if value.unicode_len() == 0 || boundary_whitespace(value) || utf8_len_exceeds(value, 128) {
            return Err(
                ProviderConfigError::new(
                    "source.id",
                    ProviderConfigFailure::InvalidValue,
                    "source id must be non-empty, bounded, and have no boundary whitespace",
                ),
            );
        }
        if !all_chars_in(value, CharSet::SourceId) {
            return Err(
                ProviderConfigError::new(
                    "source.id",
                    ProviderConfigFailure::InvalidValue,
                    "source id contains an unsupported character",
                ),
            );
        }
        Ok(ConfigSourceId(owned(value)))
    }

    /// Returns the source identifier.
    pub fn as_str(&self) -> (r: &str)
        ensures
            r@ == self@,
    {
        self.0.as_str()
    }
}

/// A safe location label for configuration provenance.
#[derive(Debug)]
pub enum ConfigSourceLocation {
    /// A built-in source compiled into the SDK.
    BuiltIn,
    /// A user configuration document identified by a safe display label.
    File {
        /// Safe display label, not raw file contents.
        label: String,
    },
    /// One explicitly named environment variable.
    EnvironmentVariable {
        /// Explicit environment variable name.
        name: String,
    },
    /// A caller-owned programmatic component label.
    Programmatic {
        /// Safe application component label.
        label: String,
    },
    /// A request-scoped source marker.
    PerRequest,
}

/// Mathematical form of a [`ConfigSourceLocation`].
pub enum LocationView {
    BuiltIn,
    File(Seq<char>),
    EnvironmentVariable(Seq<char>),
    Programmatic(Seq<char>),
    PerRequest,
}

impl View for ConfigSourceLocation {
    type V = LocationView;

    open spec fn view(&self) -> LocationView {
        match self {
            ConfigSourceLocation::BuiltIn => LocationView::BuiltIn,
            ConfigSourceLocation::File { label } => LocationView::File(label@),
            ConfigSourceLocation::EnvironmentVariable { name } => LocationView::EnvironmentVariable(
                name@,
            ),
            ConfigSourceLocation::Programmatic { label } => LocationView::Programmatic(label@),
            ConfigSourceLocation::PerRequest => LocationView::PerRequest,
        }
    }
}

impl Clone for ConfigSourceLocation {
    fn clone(&self) -> (r: Self)
        ensures
            r@ == self@,
    {
        match self {
            ConfigSourceLocation::BuiltIn => ConfigSourceLocation::BuiltIn,
            ConfigSourceLocation::File { label } => ConfigSourceLocation::File {
                label: label.clone(),
            },
            ConfigSourceLocation::EnvironmentVariable { name } =>
                ConfigSourceLocation::EnvironmentVariable { name: name.clone() },
            ConfigSourceLocation::Programmatic { label } => ConfigSourceLocation::Programmatic {
                label: label.clone(),
            },
            ConfigSourceLocation::PerRequest => ConfigSourceLocation::PerRequest,
        }
    }
}

/// A location is acceptable: a label or name, when it has one, is non-empty, has no
/// boundary white space and fits in 256 UTF-8 bytes.
pub open spec fn location_ok(location: LocationView) -> bool {
    match location {
        LocationView::File(text) => identifier_rejection(text) is None,
        LocationView::EnvironmentVariable(text) => identifier_rejection(text) is None,
        LocationView::Programmatic(text) => identifier_rejection(text) is None,
        _ => true,
    }
}

impl ConfigSourceLocation {
    fn validate(&self) -> (r: Result<(), ProviderConfigError>)
        ensures
            location_ok(self@) ==> r is Ok,
            !location_ok(self@) ==> (r matches Err(e) && config_error_is(
                e,
                "source.location"@,
                ProviderConfigFailure::InvalidValue,
                "source location must be non-empty and bounded"@,
            )),
    {
        let value = match self {
            ConfigSourceLocation::BuiltIn | ConfigSourceLocation::PerRequest => {
                return Ok(());
            },
            ConfigSourceLocation::File { label } => label,
            ConfigSourceLocation::Programmatic { label } => label,
            ConfigSourceLocation::EnvironmentVariable { name } => name,
        };
        if value.unicode_len() == 0 || boundary_whitespace(value.as_str()) || byte_len_exceeds_256(
            value.as_str(),
        ) {
            return Err(
                ProviderConfigError::new(
                    "source.location",
                    ProviderConfigFailure::InvalidValue,
                    "source location must be non-empty and bounded",
                ),
            );
        }
        Ok(())
    }
}

/// Mathematical form of a [`ConfigSource`].
pub struct ConfigSourceView {
    pub id: Seq<char>,
    pub kind: ConfigSourceKind,
    pub location: LocationView,
}

/// A source identity carried by every configuration layer.
#[derive(Debug)]
pub struct ConfigSource {
    id: ConfigSourceId,
    kind: ConfigSourceKind,
    location: ConfigSourceLocation,
}

impl View for ConfigSource {
    type V = ConfigSourceView;

    closed spec fn view(&self) -> ConfigSourceView {
        ConfigSourceView { id: self.id@, kind: self.kind, location: self.location@ }
    }
}

impl Clone for ConfigSource {
    fn clone(&self) -> (r: Self)
        ensures
            r@ == self@,
    {
        ConfigSource { id: self.id.clone(), kind: self.kind, location: self.location.clone() }
    }
}

/// `r` answers creating a source with identifier `id`, class `kind` and `location`.
pub open spec fn source_checked(
    id: Seq<char>,
    kind: ConfigSourceKind,
    location: LocationView,
    r: Result<ConfigSource, ProviderConfigError>,
) -> bool {
    if source_id_rejection(id) is Some {
        source_id_checked(id, r)
    } else if !location_ok(location) {
        r matches Err(e) && config_error_is(
            e,
            "source.location"@,
            ProviderConfigFailure::InvalidValue,
            "source location must be non-empty and bounded"@,
        )
    } else {
        r matches Ok(s) && s@ == (ConfigSourceView { id, kind, location })
    }
}

impl ConfigSource {
    /// Creates and validates a source identity.
    pub fn new(id: &str, kind: ConfigSourceKind, location: ConfigSourceLocation) -> (r: Result<
        Self,
        ProviderConfigError,
    >)
        ensures
            source_checked(id@, kind, location@, r),
    {
        let id = ConfigSourceId::new(id)?;
        location.validate()?;
        Ok(ConfigSource { id, kind, location })
    }

    /// Creates a built-in profile source.
    pub fn built_in(id: &str) -> (r: Result<Self, ProviderConfigError>)
        ensures
            source_checked(id@, ConfigSourceKind::BuiltInProfile, LocationView::BuiltIn, r),
    {
        Self::new(id, ConfigSourceKind::BuiltInProfile, ConfigSourceLocation::BuiltIn)
    }

    /// Creates a user configuration source.
    pub fn user_config(id: &str, label: &str) -> (r: Result<Self, ProviderConfigError>)
        ensures
            source_checked(id@, ConfigSourceKind::UserConfig, LocationView::File(label@), r),
    {
        Self::new(id, ConfigSourceKind::UserConfig, ConfigSourceLocation::File { label: owned(label) })
    }

    /// Creates an explicit environment-secret source.
    pub fn environment_secret(id: &str, name: &str) -> (r: Result<Self, ProviderConfigError>)
        ensures
            source_checked(
                id@,
                ConfigSourceKind::EnvironmentSecretReference,
                LocationView::EnvironmentVariable(name@),
                r,
            ),
    {
        Self::new(
            id,
            ConfigSourceKind::EnvironmentSecretReference,
            ConfigSourceLocation::EnvironmentVariable { name: owned(name) },
        )
    }

    /// Creates a programmatic override source labelled by its own identifier.
    pub fn programmatic(id: &str) -> (r: Result<Self, ProviderConfigError>)
        ensures
            source_checked(
                id@,
                ConfigSourceKind::ProgrammaticOverride,
                LocationView::Programmatic(id@),
                r,
            ),
    {
        Self::new(
            id,
            ConfigSourceKind::ProgrammaticOverride,
            ConfigSourceLocation::Programmatic { label: owned(id) },
        )
    }

    /// Creates a request-safe source marker.
    pub fn per_request(id: &str) -> (r: Result<Self, ProviderConfigError>)
        ensures
            source_checked(id@, ConfigSourceKind::PerRequestSafeOverride, LocationView::PerRequest, r),
    {
        Self::new(id, ConfigSourceKind::PerRequestSafeOverride, ConfigSourceLocation::PerRequest)
    }

    /// Returns the source identifier.
    pub fn id(&self) -> (r: &ConfigSourceId)
        ensures
            r@ == self@.id,
    {
        &self.id
    }

    /// Returns the source class.
    pub fn kind(&self) -> (r: ConfigSourceKind)
        ensures
            r == self@.kind,
    {
        self.kind
    }

    /// Returns the safe source location.
    pub fn location(&self) -> (r: &ConfigSourceLocation)
        ensures
            r@ == self@.location,
    {
        &self.location
    }
}

/// Whether a layer set or removed a field.
#[derive(Clone, Copy, Debug, PartialEq, Eq, Structural)]
pub enum FieldState {
    /// The layer supplied a value.
    Supplied,
    /// The layer explicitly removed a value.
    Removed,
}

/// Non-sensitive provenance for one resolved field.
#[derive(Debug)]
pub struct FieldProvenance {
    source: ConfigSource,
    state: FieldState,
}

impl FieldProvenance {
    /// The source that decided the field.
    pub closed spec fn spec_source(&self) -> ConfigSourceView {
        self.source@
    }

    /// Whether the field was set or removed.
    pub closed spec fn spec_state(&self) -> FieldState {
        self.state
    }

    /// Records that `source` set or removed a field.
    pub fn new(source: ConfigSource, state: FieldState) -> (r: Self)
        ensures
            r.spec_source() == source@,
            r.spec_state() == state,
    {
        FieldProvenance { source, state }
    }

    /// Returns the source identity.
    pub fn source(&self) -> (r: &ConfigSource)
        ensures
            r@ == self.spec_source(),
    {
        &self.source
    }

    /// Returns whether the field is set or explicitly removed.
    pub fn state(&self) -> (r: FieldState)
        ensures
            r == self.spec_state(),
    {
        self.state
    }
}

} // verus!
