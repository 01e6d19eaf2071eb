//! Short-lived credentials from an external source: their identity partitions, schemes and
//! expiry, and the decisions around acquiring, caching and refreshing them.
//!
//! Instants are readings of a monotonic clock in nanoseconds from an arbitrary origin, and
//! durations are nanoseconds.

use vstd::prelude::*;
use vstd::utf8::encode_utf8;

use crate::domain::{check_identifier, identifier_rejection, ProviderId};
use crate::error::{
    credential, is_credential, is_validation, validation, CredentialFailure, LlmError,
    ValidationReason,
};
use crate::provider::catalog::ids::ProductId;
use crate::provider::endpoint::audience::{
    audience_binding, binding_checked, binding_permits, CredentialAudience, CredentialBinding,
};
use crate::provider::endpoint::origin::ResolvedEndpoint;
use crate::provider::headers::pipeline::{
    operation_views, texts, HeaderOperation, HeaderOperationView, ResolvedHeaders,
};
use crate::text::{owned, str_eq};

use super::providers::{
    auth_name_refused, auth_name_rejected, binding_refused, key_bytes_operation,
    validate_auth_name, AuthContext,
};
use super::{ApiKey, AuthSchemeKind, CredentialSourceKind};

verus! {

/// Opaque tenant identifier used only for credential cache isolation.
pub struct TenantId(String);

/// Opaque credential identity used only for credential cache isolation.
pub struct CredentialIdentity(String);

impl View for TenantId {
    type V = Seq<char>;

    closed spec fn view(&self) -> Seq<char> {
        self.0@
    }
}

impl View for CredentialIdentity {
    type V = Seq<char>;

    closed spec fn view(&self) -> Seq<char> {
        self.0@
    }
}

/// `r` is the identifier `value` for field `label`, or its validation error.
pub open spec fn opaque_id_checked<T: View<V = Seq<char>>>(
    label: Seq<char>,
    value: Seq<char>,
    r: Result<T, LlmError>,
) -> bool {
    match identifier_rejection(value) {
        None => r matches Ok(id) && id@ == value,
        Some((reason, summary)) => r matches Err(e) && is_validation(e, label, reason, summary),
    }
}

impl TenantId {
    /// Creates a non-empty opaque identifier of at most 256 bytes.
    pub fn new(value: &str) -> (r: Result<Self, LlmError>)
        ensures
            opaque_id_checked("tenant_id"@, value@, r),
    {
        match check_identifier("tenant_id", value) {
            Ok(()) => Ok(TenantId(owned(value))),
            Err(e) => Err(LlmError::Validation(e)),
        }
    }

    fn duplicate(&self) -> (r: Self)
        ensures
            r@ == self@,
    {
        TenantId(self.0.clone())
    }
}

impl CredentialIdentity {
    /// Creates a non-empty opaque identifier of at most 256 bytes.
    pub fn new(value: &str) -> (r: Result<Self, LlmError>)
        ensures
            opaque_id_checked("credential_identity"@, value@, r),
    {
        match check_identifier("credential_identity", value) {
            Ok(()) => Ok(CredentialIdentity(owned(value))),
            Err(e) => Err(LlmError::Validation(e)),
        }
    }

    fn duplicate(&self) -> (r: Self)
        ensures
            r@ == self@,
    {
        CredentialIdentity(self.0.clone())
    }
}

/// Mathematical form of a [`DynamicCredentialScheme`].
pub enum SchemeView {
    /// `Authorization: Bearer <secret>`.
    Bearer,
    /// Raw secret in the named header.
    ApiKeyHeader(Seq<char>),
}

/// Header scheme supplied by a dynamic credential source.
pub enum DynamicCredentialScheme {
    /// `Authorization: Bearer <secret>`.
    Bearer,
    /// Raw secret in an explicitly registered authentication header.
    ApiKeyHeader(String),
}

impl View for DynamicCredentialScheme {
    type V = SchemeView;

    open spec fn view(&self) -> SchemeView {
        match self {
            DynamicCredentialScheme::Bearer => SchemeView::Bearer,
            DynamicCredentialScheme::ApiKeyHeader(name) => SchemeView::ApiKeyHeader(name@),
        }
    }
}

impl DynamicCredentialScheme {
    fn duplicate(&self) -> (r: Self)
        ensures
            r@ == self@,
    {
        match self {
            DynamicCredentialScheme::Bearer => DynamicCredentialScheme::Bearer,
            DynamicCredentialScheme::ApiKeyHeader(name) => DynamicCredentialScheme::ApiKeyHeader(
                name.clone(),
            ),
        }
    }

    fn same_as(&self, other: &DynamicCredentialScheme) -> (r: bool)
        ensures
            r == (self@ == other@),
    {
        match (self, other) {
            (DynamicCredentialScheme::Bearer, DynamicCredentialScheme::Bearer) => true,
            (DynamicCredentialScheme::ApiKeyHeader(a), DynamicCredentialScheme::ApiKeyHeader(b)) => {
                str_eq(a.as_str(), b.as_str())
            },
            _ => false,
        }
    }
}

/// A scheme's header may carry authentication.
pub open spec fn scheme_name_ok(scheme: SchemeView) -> bool {
    match scheme {
        SchemeView::Bearer => true,
        SchemeView::ApiKeyHeader(name) => !auth_name_rejected(name),
    }
}

/// The header a scheme writes.
pub open spec fn scheme_header(scheme: SchemeView) -> Seq<char> {
    match scheme {
        SchemeView::Bearer => "authorization"@,
        SchemeView::ApiKeyHeader(name) => name,
    }
}

/// The operation a credential writes: its secret under its scheme's header, sensitive.
pub open spec fn credential_operation(scheme: SchemeView, key: Seq<char>) -> HeaderOperationView {
    match scheme {
        SchemeView::Bearer => HeaderOperationView::Assign(
            "authorization"@,
            encode_utf8("Bearer "@ + key),
            true,
        ),
        SchemeView::ApiKeyHeader(name) => HeaderOperationView::Assign(name, encode_utf8(key), true),
    }
}

/// Short-lived secret and its monotonic expiration instant.
pub struct DynamicCredential {
    key: ApiKey,
    scheme: DynamicCredentialScheme,
    expires_at: u64,
}

impl DynamicCredential {
    /// The secret text.
    pub closed spec fn spec_key(&self) -> Seq<char> {
        self.key.spec_value()
    }

    /// The declared scheme.
    pub closed spec fn spec_scheme(&self) -> SchemeView {
        self.scheme@
    }

    /// The expiration instant.
    pub closed spec fn spec_expires_at(&self) -> u64 {
        self.expires_at
    }

    #[verifier::type_invariant]
    spec fn scheme_ok(self) -> bool {
        scheme_name_ok(self.scheme@)
    }

    /// Creates a short-lived Bearer credential; it must not be expired at `now`.
    pub fn bearer(key: ApiKey, expires_at: u64, now: u64) -> (r: Result<Self, LlmError>)
        ensures
            expires_at > now ==> (r matches Ok(c) && c.spec_key() == key.spec_value()
                && c.spec_scheme() == SchemeView::Bearer && c.spec_expires_at() == expires_at),
            expires_at <= now ==> (r matches Err(e) && is_credential(e, CredentialFailure::Invalid)),
    {
        if expires_at <= now {
            return Err(credential(CredentialFailure::Invalid));
        }
        Ok(DynamicCredential { key, scheme: DynamicCredentialScheme::Bearer, expires_at })
    }

    /// Creates a short-lived raw API-key header credential; the header must be able to carry
    /// authentication and the credential must not be expired at `now`.
    pub fn api_key_header(name: &str, key: ApiKey, expires_at: u64, now: u64) -> (r: Result<
        Self,
        LlmError,
    >)
        ensures
            auth_name_rejected(name@) ==> (r matches Err(e) && auth_name_refused(e)),
            !auth_name_rejected(name@) && expires_at <= now ==> (r matches Err(e) && is_credential(
                e,
                CredentialFailure::Invalid,
            )),
            !auth_name_rejected(name@) && expires_at > now ==> (r matches Ok(c) && c.spec_key()
                == key.spec_value() && c.spec_scheme() == SchemeView::ApiKeyHeader(name@)
                && c.spec_expires_at() == expires_at),
    {
        validate_auth_name(name)?;
        if expires_at <= now {
            return Err(credential(CredentialFailure::Invalid));
        }
        Ok(
            DynamicCredential {
                key,
                scheme: DynamicCredentialScheme::ApiKeyHeader(owned(name)),
                expires_at,
            },
        )
    }

    /// Returns the declared authentication scheme without exposing the secret.
    pub fn scheme(&self) -> (r: &DynamicCredentialScheme)
        ensures
            r@ == self.spec_scheme(),
    {
        &self.scheme
    }

    /// Returns the monotonic expiration instant.
    pub fn expires_at(&self) -> (r: u64)
        ensures
            r == self.spec_expires_at(),
    {
        self.expires_at
    }

    /// Whether more than `refresh_window` remains before expiry at `now`.
    pub fn is_fresh_at(&self, now: u64, refresh_window: u64) -> (r: bool)
        ensures
            r == (self.spec_expires_at() > now && self.spec_expires_at() - now > refresh_window),
    {
        self.expires_at > now && self.expires_at - now > refresh_window
    }

    /// The header operation this credential writes.
    pub fn operation(&self) -> (r: HeaderOperation)
        ensures
            r@ == credential_operation(self.spec_scheme(), self.spec_key()),
    {
        proof {
            use_type_invariant(self);
        }
        match &self.scheme {
            DynamicCredentialScheme::Bearer => {
                let key = self.key.expose();
                let value = crate::text::concat(owned("Bearer "), key);
                proof {
                    super::providers::lemma_key_is_header_text(key@);
                    crate::provider::headers::pipeline::lemma_header_text_bytes(value@);
                }
                match HeaderOperation::set_sensitive("authorization", value.as_str().as_bytes()) {
                    Ok(op) => op,
                    Err(_) => {
                        proof {
                            assert(false);
                        }
                        HeaderOperation::remove("authorization")
                    },
                }
            },
            DynamicCredentialScheme::ApiKeyHeader(name) => key_bytes_operation(
                name.as_str(),
                &self.key,
            ),
        }
    }

    /// Copies the credential.
    pub fn duplicate(&self) -> (r: Self)
        ensures
            r.spec_key() == self.spec_key(),
            r.spec_scheme() == self.spec_scheme(),
            r.spec_expires_at() == self.spec_expires_at(),
    {
        proof {
            use_type_invariant(self);
        }
        DynamicCredential {
            key: self.key.clone(),
            scheme: self.scheme.duplicate(),
            expires_at: self.expires_at,
        }
    }
}

/// Value-free input supplied to an external dynamic credential callback.
pub struct DynamicCredentialContext {
    tenant_id: TenantId,
    provider_id: ProviderId,
    product_id: ProductId,
    audience: CredentialAudience,
    credential_identity: CredentialIdentity,
}

impl DynamicCredentialContext {
    /// The tenant partition.
    pub closed spec fn spec_tenant_id(&self) -> Seq<char> {
        self.tenant_id@
    }

    /// The provider.
    pub closed spec fn spec_provider_id(&self) -> Seq<char> {
        self.provider_id@
    }

    /// The product.
    pub closed spec fn spec_product_id(&self) -> Seq<char> {
        self.product_id@
    }

    /// The audience, by the binding it stands for.
    pub closed spec fn spec_audience(&self) -> crate::provider::endpoint::audience::BindingView {
        audience_binding(self.audience)
    }

    /// The credential identity partition.
    pub closed spec fn spec_credential_identity(&self) -> Seq<char> {
        self.credential_identity@
    }

    /// Returns the opaque tenant cache partition.
    pub fn tenant_id(&self) -> (r: &TenantId)
        ensures
            r@ == self.spec_tenant_id(),
    {
        &self.tenant_id
    }

    /// Returns the provider identifier.
    pub fn provider_id(&self) -> (r: &ProviderId)
        ensures
            r@ == self.spec_provider_id(),
    {
        &self.provider_id
    }

    /// Returns the exact provider product identifier.
    pub fn product_id(&self) -> (r: &ProductId)
        ensures
            r@ == self.spec_product_id(),
    {
        &self.product_id
    }

    /// Returns the endpoint credential audience.
    pub fn audience(&self) -> (r: &CredentialAudience)
        ensures
            audience_binding(*r) == self.spec_audience(),
    {
        &self.audience
    }

    /// Returns the opaque credential identity used for cache partitioning.
    pub fn credential_identity(&self) -> (r: &CredentialIdentity)
        ensures
            r@ == self.spec_credential_identity(),
    {
        &self.credential_identity
    }

    /// The cache partition this context reads and fills.
    pub fn cache_key(&self) -> (r: super::cache::AuthCacheKey)
        ensures
            r.tenant_id@ == self.spec_tenant_id(),
            r.provider_id@ == self.spec_provider_id(),
            r.product_id@ == self.spec_product_id(),
            r.audience_label@ == self.spec_audience().label,
            (r.audience_scheme@, r.audience_host@, r.audience_port) == self.spec_audience().origin,
            r.credential_identity@ == self.spec_credential_identity(),
    {
        let binding = CredentialBinding::for_audience(&self.audience);
        let origin = binding.origin();
        super::cache::AuthCacheKey {
            tenant_id: self.tenant_id.0.clone(),
            provider_id: owned(self.provider_id.as_str()),
            product_id: owned(self.product_id.as_str()),
            audience_label: owned(binding.label()),
            audience_scheme: owned(origin.scheme()),
            audience_host: owned(origin.host()),
            audience_port: origin.port(),
            credential_identity: self.credential_identity.0.clone(),
        }
    }
}

/// The default callback timeout: five seconds.
pub const DEFAULT_CALLBACK_TIMEOUT_NANOS: u64 = 5_000_000_000;

/// The default refresh window: thirty seconds.
pub const DEFAULT_REFRESH_WINDOW_NANOS: u64 = 30_000_000_000;

/// The views of a list of schemes.
pub open spec fn scheme_views(schemes: Seq<DynamicCredentialScheme>) -> Seq<SchemeView> {
    schemes.map_values(|s: DynamicCredentialScheme| s@)
}

/// Dynamic authentication settings: the audience and cache partition a source serves,
/// which schemes it may return, its timeout and refresh window, and whether a refresh
/// failure may fall back to a credential that has not expired.
pub struct DynamicAuth {
    tenant_id: TenantId,
    credential_identity: CredentialIdentity,
    audience: CredentialAudience,
    allowed_schemes: Vec<DynamicCredentialScheme>,
    callback_timeout: u64,
    refresh_window: u64,
    allow_still_valid_fallback: bool,
}

/// Mathematical form of [`DynamicAuth`].
pub struct DynamicAuthView {
    pub tenant_id: Seq<char>,
    pub credential_identity: Seq<char>,
    pub audience: crate::provider::endpoint::audience::BindingView,
    pub allowed_schemes: Seq<SchemeView>,
    pub callback_timeout: u64,
    pub refresh_window: u64,
    pub allow_still_valid_fallback: bool,
}

impl View for DynamicAuth {
    type V = DynamicAuthView;

    closed spec fn view(&self) -> DynamicAuthView {
        DynamicAuthView {
            tenant_id: self.tenant_id@,
            credential_identity: self.credential_identity@,
            audience: audience_binding(self.audience),
            allowed_schemes: scheme_views(self.allowed_schemes@),
            callback_timeout: self.callback_timeout,
            refresh_window: self.refresh_window,
            allow_still_valid_fallback: self.allow_still_valid_fallback,
        }
    }
}

/// The protected headers of a list of schemes, in order.
pub open spec fn scheme_headers(schemes: Seq<SchemeView>) -> Seq<Seq<char>> {
    schemes.map_values(|s: SchemeView| scheme_header(s))
}

/// How many of `names` the headers hold.
pub open spec fn populated_count(names: Seq<Seq<char>>, headers: Map<Seq<char>, Seq<u8>>) -> nat
    decreases names.len(),
{
    if names.len() == 0 {
        0
    } else {
        populated_count(names.drop_last(), headers) + if headers.contains_key(names.last()) {
            1nat
        } else {
            0nat
        }
    }
}

impl DynamicAuth {
    #[verifier::type_invariant]
    spec fn settings_ok(self) -> bool {
        &&& self.callback_timeout > 0
        &&& forall|i: int|
            0 <= i < self.allowed_schemes@.len() ==> scheme_name_ok(
                #[trigger] self.allowed_schemes@[i]@,
            )
    }

    /// Creates a dynamic Bearer provider with an isolated cache partition, a five-second
    /// callback timeout, a thirty-second refresh window and the still-valid fallback on.
    pub fn new(
        audience: CredentialAudience,
        tenant_id: TenantId,
        credential_identity: CredentialIdentity,
    ) -> (r: Self)
        ensures
            r@ == (DynamicAuthView {
                tenant_id: tenant_id@,
                credential_identity: credential_identity@,
                audience: audience_binding(audience),
                allowed_schemes: seq![SchemeView::Bearer],
                callback_timeout: DEFAULT_CALLBACK_TIMEOUT_NANOS,
                refresh_window: DEFAULT_REFRESH_WINDOW_NANOS,
                allow_still_valid_fallback: true,
            }),
    {
        let allowed_schemes = vec![DynamicCredentialScheme::Bearer];
        assert(scheme_views(allowed_schemes@) =~= seq![SchemeView::Bearer]);
        DynamicAuth {
            tenant_id,
            credential_identity,
            audience,
            allowed_schemes,
            callback_timeout: DEFAULT_CALLBACK_TIMEOUT_NANOS,
            refresh_window: DEFAULT_REFRESH_WINDOW_NANOS,
            allow_still_valid_fallback: true,
        }
    }

    /// Sets the callback timeout. Zero is rejected.
    pub fn with_callback_timeout(self, timeout: u64) -> (r: Result<Self, LlmError>)
        ensures
            timeout == 0 ==> (r matches Err(e) && is_validation(
                e,
                "auth.callback_timeout"@,
                ValidationReason::OutOfRange,
                "callback timeout must be positive"@,
            )),
            timeout > 0 ==> (r matches Ok(a) && a@ == (DynamicAuthView {
                callback_timeout: timeout,
                ..self@
            })),
    {
        if timeout == 0 {
            return Err(
                validation(
                    "auth.callback_timeout",
                    ValidationReason::OutOfRange,
                    "callback timeout must be positive",
                ),
            );
        }
        proof {
            use_type_invariant(&self);
        }
        let mut auth = self;
        auth.callback_timeout = timeout;
        Ok(auth)
    }

    /// Sets how early a cached credential should be refreshed.
    pub fn with_refresh_window(self, refresh_window: u64) -> (r: Self)
        ensures
            r@ == (DynamicAuthView { refresh_window, ..self@ }),
    {
        proof {
            use_type_invariant(&self);
        }
        let mut auth = self;
        auth.refresh_window = refresh_window;
        auth
    }

    /// Allows the source to return one registered API-key header scheme.
    pub fn allow_api_key_header(self, name: &str) -> (r: Result<Self, LlmError>)
        ensures
            auth_name_rejected(name@) ==> (r matches Err(e) && auth_name_refused(e)),
            !auth_name_rejected(name@) ==> (r matches Ok(a) && a@ == (DynamicAuthView {
                allowed_schemes: if self@.allowed_schemes.contains(SchemeView::ApiKeyHeader(name@)) {
                    self@.allowed_schemes
                } else {
                    self@.allowed_schemes.push(SchemeView::ApiKeyHeader(name@))
                },
                ..self@
            })),
    {
        validate_auth_name(name)?;
        let scheme = DynamicCredentialScheme::ApiKeyHeader(owned(name));
        if self.scheme_allowed(&scheme) {
            return Ok(self);
        }
        proof {
            use_type_invariant(&self);
        }
        let DynamicAuth {
            tenant_id,
            credential_identity,
            audience,
            allowed_schemes,
            callback_timeout,
            refresh_window,
            allow_still_valid_fallback,
        } = self;
        let mut allowed_schemes = allowed_schemes;
        let ghost before = scheme_views(allowed_schemes@);
        allowed_schemes.push(scheme);
        assert(scheme_views(allowed_schemes@) =~= before.push(SchemeView::ApiKeyHeader(name@)));
        Ok(
            DynamicAuth {
                tenant_id,
                credential_identity,
                audience,
                allowed_schemes,
                callback_timeout,
                refresh_window,
                allow_still_valid_fallback,
            },
        )
    }

    /// Controls whether a refresh failure may reuse a credential that is not yet expired.
    pub fn with_still_valid_fallback(self, allowed: bool) -> (r: Self)
        ensures
            r@ == (DynamicAuthView { allow_still_valid_fallback: allowed, ..self@ }),
    {
        proof {
            use_type_invariant(&self);
        }
        let mut auth = self;
        auth.allow_still_valid_fallback = allowed;
        auth
    }

    /// Returns the callback timeout.
    pub fn callback_timeout(&self) -> (r: u64)
        ensures
            r == self@.callback_timeout,
            r > 0,
    {
        proof {
            use_type_invariant(self);
        }
        self.callback_timeout
    }

    /// Returns the refresh window.
    pub fn refresh_window(&self) -> (r: u64)
        ensures
            r == self@.refresh_window,
    {
        self.refresh_window
    }

    /// Returns whether a refresh failure may reuse a credential that has not expired.
    pub fn allows_still_valid_fallback(&self) -> (r: bool)
        ensures
            r == self@.allow_still_valid_fallback,
    {
        self.allow_still_valid_fallback
    }

    fn scheme_allowed(&self, scheme: &DynamicCredentialScheme) -> (r: bool)
        ensures
            r == self@.allowed_schemes.contains(scheme@),
    {
        let mut i: usize = 0;
        while i < self.allowed_schemes.len()
            invariant
                i <= self.allowed_schemes@.len(),
                forall|k: int| 0 <= k < i ==> (#[trigger] self.allowed_schemes@[k])@ != scheme@,
            decreases self.allowed_schemes@.len() - i,
        {
            if self.allowed_schemes[i].same_as(scheme) {
                proof {
                    assert(scheme_views(self.allowed_schemes@)[i as int] == scheme@);
                }
                return true;
            }
            i = i + 1;
        }
        proof {
            if self@.allowed_schemes.contains(scheme@) {
                let k = choose|k: int|
                    0 <= k < self@.allowed_schemes.len() && self@.allowed_schemes[k] == scheme@;
                assert(self.allowed_schemes@[k]@ == scheme@);
            }
        }
        false
    }

    /// Checks a resolution request and names the cache partition it reads: the audience
    /// must permit the endpoint, and a real attempt's provider and product must be known.
    pub fn callback_context(&self, context: &AuthContext) -> (r: Result<
        DynamicCredentialContext,
        LlmError,
    >)
        ensures
            !binding_permits(
                self@.audience,
                context.spec_endpoint().spec_origin(),
                context.spec_endpoint().spec_url().path,
            ) ==> (r matches Err(e) && binding_refused(e)),
            binding_permits(
                self@.audience,
                context.spec_endpoint().spec_origin(),
                context.spec_endpoint().spec_url().path,
            ) && (context.spec_provider_id() is None || context.spec_product_id() is None) ==> (r matches Err(e)
                && is_credential(e, CredentialFailure::Invalid)),
            binding_permits(
                self@.audience,
                context.spec_endpoint().spec_origin(),
                context.spec_endpoint().spec_url().path,
            ) && context.spec_provider_id() is Some && context.spec_product_id() is Some ==> (r matches Ok(c) && {
                &&& c.spec_tenant_id() == self@.tenant_id
                &&& Some(c.spec_provider_id()) == context.spec_provider_id()
                &&& Some(c.spec_product_id()) == context.spec_product_id()
                &&& c.spec_audience() == self@.audience
                &&& c.spec_credential_identity() == self@.credential_identity
            }),
    {
        self.audience.validate(context.endpoint())?;
        let provider_id = match context.provider_id() {
            Some(p) => p.clone(),
            None => return Err(credential(CredentialFailure::Invalid)),
        };
        let product_id = match context.product_id() {
            Some(p) => p.clone(),
            None => return Err(credential(CredentialFailure::Invalid)),
        };
        Ok(
            DynamicCredentialContext {
                tenant_id: self.tenant_id.duplicate(),
                provider_id,
                product_id,
                audience: self.audience.clone(),
                credential_identity: self.credential_identity.duplicate(),
            },
        )
    }

    /// Accepts a credential the source returned at `now`: its scheme must be allowed and it
    /// must not have expired.
    pub fn accept_acquired(&self, acquired: DynamicCredential, now: u64) -> (r: Result<
        DynamicCredential,
        LlmError,
    >)
        ensures
            self@.allowed_schemes.contains(acquired.spec_scheme()) && acquired.spec_expires_at()
                > now ==> (r matches Ok(c) && c.spec_key() == acquired.spec_key() && c.spec_scheme()
                == acquired.spec_scheme() && c.spec_expires_at() == acquired.spec_expires_at()),
            !(self@.allowed_schemes.contains(acquired.spec_scheme()) && acquired.spec_expires_at()
                > now) ==> (r matches Err(e) && is_credential(e, CredentialFailure::Invalid)),
    {
        if !self.scheme_allowed(acquired.scheme()) || acquired.expires_at() <= now {
            return Err(credential(CredentialFailure::Invalid));
        }
        Ok(acquired)
    }

    /// The headers the allowed schemes write, in order.
    pub fn protected_headers(&self) -> (r: Vec<String>)
        ensures
            texts(r@) == scheme_headers(self@.allowed_schemes),
    {
        let mut out: Vec<String> = Vec::new();
        let mut i: usize = 0;
        while i < self.allowed_schemes.len()
            invariant
                i <= self.allowed_schemes@.len(),
                out@.len() == i,
                forall|k: int| 0 <= k < i ==> #[trigger] out@[k]@ == scheme_header(
                    self.allowed_schemes@[k]@,
                ),
            decreases self.allowed_schemes@.len() - i,
        {
            let name = match &self.allowed_schemes[i] {
                DynamicCredentialScheme::Bearer => owned("authorization"),
                DynamicCredentialScheme::ApiKeyHeader(name) => name.clone(),
            };
            out.push(name);
            i = i + 1;
        }
        assert(texts(out@) =~= scheme_headers(self@.allowed_schemes));
        out
    }

    /// Validates credential binding before the runtime becomes usable.
    pub fn validate_endpoint(&self, endpoint: &ResolvedEndpoint) -> (r: Result<(), LlmError>)
        ensures
            binding_checked(self@.audience, *endpoint, r),
    {
        self.audience.validate(endpoint)
    }

    /// Validates that the final headers carry exactly one of the allowed schemes' headers.
    pub fn validate_final(&self, headers: &ResolvedHeaders) -> (r: Result<(), LlmError>)
        ensures
            populated_count(scheme_headers(self@.allowed_schemes), headers@.headers) == 1 ==> r is Ok,
            populated_count(scheme_headers(self@.allowed_schemes), headers@.headers) != 1 ==> (r matches Err(e)
                && is_credential(e, CredentialFailure::Invalid)),
    {
        let names = self.protected_headers();
        let ghost all = texts(names@);
        let mut count: usize = 0;
        let mut i: usize = 0;
        while i < names.len()
            invariant
                i <= names@.len(),
                all == texts(names@),
                count == populated_count(all.take(i as int), headers@.headers),
                count <= i,
            decreases names@.len() - i,
        {
            proof {
                assert(all.take(i + 1).drop_last() =~= all.take(i as int));
                assert(all.take(i + 1).last() == names@[i as int]@);
            }
            if headers.contains(names[i].as_str()) {
                count = count + 1;
            }
            i = i + 1;
        }
        proof {
            assert(all.take(names@.len() as int) =~= all);
        }
        if count == 1 {
            Ok(())
        } else {
            Err(credential(CredentialFailure::Invalid))
        }
    }

    /// Returns the authentication shape.
    pub fn scheme_kind(&self) -> (r: AuthSchemeKind)
        ensures
            r == AuthSchemeKind::Dynamic,
    {
        AuthSchemeKind::Dynamic
    }

    /// Returns the credential source class.
    pub fn credential_source_kind(&self) -> (r: CredentialSourceKind)
        ensures
            r == CredentialSourceKind::Dynamic,
    {
        CredentialSourceKind::Dynamic
    }
}

} // verus!
