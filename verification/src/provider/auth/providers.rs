//! Static authentication providers: Bearer, one API-key header, an atomic group of
//! API-key headers, and explicit unauthenticated operation.

use vstd::prelude::*;
use vstd::utf8::encode_utf8;

use crate::domain::ProviderId;
use crate::error::{is_configuration, is_validation, validation, LlmError, ValidationReason};
use crate::provider::catalog::ids::ProductId;
use crate::provider::endpoint::audience::{binding_checked, binding_permits, BindingView, CredentialBinding};
use crate::provider::endpoint::origin::ResolvedEndpoint;
use crate::provider::headers::HeaderSource;
use crate::provider::headers::pipeline::{
    header_allowed, lemma_header_text_bytes, operation_rejection, HeaderPolicyView, operation_views, texts, HeaderOperation, HeaderOperationView,
    ResolvedHeaders,
};
use crate::text::{all_in_set, concat, in_set, owned, str_eq, CharSet};

use super::{api_key_rejection, ApiKey, AuthSchemeKind, CredentialSourceKind, NoAuth};

verus! {

/// Safe authentication context containing no prompt or wire request.
pub struct AuthContext<'a> {
    endpoint: &'a ResolvedEndpoint,
    provider_id: Option<&'a ProviderId>,
    product_id: Option<&'a ProductId>,
}

impl<'a> AuthContext<'a> {
    /// The endpoint the credential is resolved for.
    pub closed spec fn spec_endpoint(&self) -> ResolvedEndpoint {
        *self.endpoint
    }

    /// The provider, when resolving a real attempt.
    pub closed spec fn spec_provider_id(&self) -> Option<Seq<char>> {
        match self.provider_id {
            Some(p) => Some(p@),
            None => None,
        }
    }

    /// The product, when resolving a real attempt.
    pub closed spec fn spec_product_id(&self) -> Option<Seq<char>> {
        match self.product_id {
            Some(p) => Some(p@),
            None => None,
        }
    }

    /// Creates an authentication context for a resolved endpoint.
    pub fn new(endpoint: &'a ResolvedEndpoint) -> (r: Self)
        ensures
            r.spec_endpoint() == *endpoint,
            r.spec_provider_id() is None,
            r.spec_product_id() is None,
    {
        AuthContext { endpoint, provider_id: None, product_id: None }
    }

    /// Creates the context of one real attempt.
    pub fn for_attempt(
        endpoint: &'a ResolvedEndpoint,
        provider_id: &'a ProviderId,
        product_id: &'a ProductId,
    ) -> (r: Self)
        ensures
            r.spec_endpoint() == *endpoint,
            r.spec_provider_id() == Some(provider_id@),
            r.spec_product_id() == Some(product_id@),
    {
        AuthContext { endpoint, provider_id: Some(provider_id), product_id: Some(product_id) }
    }

    /// Returns the final endpoint.
    pub fn endpoint(&self) -> (r: &'a ResolvedEndpoint)
        ensures
            *r == self.spec_endpoint(),
    {
        self.endpoint
    }

    /// Returns the provider identifier when resolving a real attempt.
    pub fn provider_id(&self) -> (r: Option<&'a ProviderId>)
        ensures
            match r {
                Some(p) => self.spec_provider_id() == Some(p@),
                None => self.spec_provider_id() is None,
            },
    {
        self.provider_id
    }

    /// Returns the product identifier when resolving a real attempt.
    pub fn product_id(&self) -> (r: Option<&'a ProductId>)
        ensures
            match r {
                Some(p) => self.spec_product_id() == Some(p@),
                None => self.spec_product_id() is None,
            },
    {
        self.product_id
    }
}

/// The error of a credential used against an endpoint its binding does not permit.
pub open spec fn binding_refused(e: LlmError) -> bool {
    is_configuration(e, "credential binding does not match endpoint origin"@)
}

/// The bytes of the `Bearer ` prefix.
pub open spec fn bearer_prefix() -> Seq<u8> {
    seq![66u8, 101, 97, 114, 101, 114, 32]
}

/// Bytes that `http::HeaderValue::to_str` yields text for: visible ASCII and tabs.
pub open spec fn visible_ascii(bytes: Seq<u8>) -> bool {
    forall|i: int| 0 <= i < bytes.len() ==> {
        let b = #[trigger] bytes[i];
        (32 <= b && b < 127) || b == 9
    }
}

/// A well-formed Bearer authorization value: visible ASCII, the `Bearer ` prefix, then
/// at least one more byte.
pub open spec fn bearer_value_ok(bytes: Seq<u8>) -> bool {
    &&& visible_ascii(bytes)
    &&& bytes.len() > 7
    &&& bytes.subrange(0, 7) == bearer_prefix()
}

/// The validation error of a final Header check, with its summary.
pub open spec fn final_check_refused(e: LlmError, field: Seq<char>, summary: Seq<char>) -> bool {
    is_validation(e, field, ValidationReason::ProtectedHeader, summary)
}

pub(crate) proof fn lemma_key_is_header_text(key: Seq<char>)
    requires
        api_key_rejection(key) is None,
    ensures
        all_in_set(key, CharSet::HeaderValue),
        all_in_set("Bearer "@ + key, CharSet::HeaderValue),
{
    reveal_strlit("Bearer ");
    let full = "Bearer "@ + key;
    assert(all_in_set(full, CharSet::HeaderValue));
    assert forall|i: int| 0 <= i < key.len() implies #[trigger] in_set(key[i], CharSet::HeaderValue) by {
        assert(full[7 + i] == key[i]);
        assert(in_set(full[7 + i], CharSet::HeaderValue));
    }
}

pub(crate) fn key_bytes_operation(name: &str, key: &ApiKey) -> (r: HeaderOperation)
    ensures
        r@ == HeaderOperationView::Assign(name@, encode_utf8(key.spec_value()), true),
{
    let text = key.expose();
    proof {
        lemma_key_is_header_text(text@);
        lemma_header_text_bytes(text@);
    }
    match HeaderOperation::set_sensitive(name, text.as_bytes()) {
        Ok(op) => op,
        Err(_) => {
            proof {
                assert(false);
            }
            HeaderOperation::remove(name)
        },
    }
}

fn visible_ascii_exec(bytes: &Vec<u8>) -> (r: bool)
    ensures
        r == visible_ascii(bytes@),
{
    let mut i: usize = 0;
    while i < bytes.len()
        invariant
            i <= bytes@.len(),
            forall|k: int| 0 <= k < i ==> {
                let b = #[trigger] bytes@[k];
                (32 <= b && b < 127) || b == 9
            },
        decreases bytes@.len() - i,
    {
        let b = bytes[i];
        if !((32 <= b && b < 127) || b == 9) {
            return false;
        }
        i = i + 1;
    }
    true
}

fn bearer_value_ok_exec(bytes: &Vec<u8>) -> (r: bool)
    ensures
        r == bearer_value_ok(bytes@),
{
    if bytes.len() <= 7 || !visible_ascii_exec(bytes) {
        return false;
    }
    let prefix = (bytes[0] == 66 && bytes[1] == 101 && bytes[2] == 97 && bytes[3] == 114 && bytes[4]
        == 101 && bytes[5] == 114 && bytes[6] == 32);
    proof {
        if prefix {
            assert(bytes@.subrange(0, 7) =~= bearer_prefix());
        } else {
            assert(bytes@.subrange(0, 7) != bearer_prefix()) by {
                if bytes@.subrange(0, 7) == bearer_prefix() {
                    assert(bytes@.subrange(0, 7)[0] == bytes@[0]);
                    assert(bytes@.subrange(0, 7)[1] == bytes@[1]);
                    assert(bytes@.subrange(0, 7)[2] == bytes@[2]);
                    assert(bytes@.subrange(0, 7)[3] == bytes@[3]);
                    assert(bytes@.subrange(0, 7)[4] == bytes@[4]);
                    assert(bytes@.subrange(0, 7)[5] == bytes@[5]);
                    assert(bytes@.subrange(0, 7)[6] == bytes@[6]);
                }
            }
        }
    }
    prefix
}

/// Bearer credential bound to an immutable destination.
pub struct BearerCredential {
    key: ApiKey,
    binding: CredentialBinding,
}

impl BearerCredential {
    /// The secret text.
    pub closed spec fn spec_key(&self) -> Seq<char> {
        self.key.spec_value()
    }

    /// The destination binding.
    pub closed spec fn spec_binding(&self) -> BindingView {
        self.binding@
    }

    /// Binds a secret to its allowed destination.
    pub fn new(key: ApiKey, binding: CredentialBinding) -> (r: Self)
        ensures
            r.spec_key() == key.spec_value(),
            r.spec_binding() == binding@,
    {
        BearerCredential { key, binding }
    }

    /// Returns the credential destination binding.
    pub fn binding(&self) -> (r: &CredentialBinding)
        ensures
            r@ == self.spec_binding(),
    {
        &self.binding
    }

    /// Compatibility alias for [`Self::binding`].
    pub fn audience(&self) -> (r: &CredentialBinding)
        ensures
            r@ == self.spec_binding(),
    {
        self.binding()
    }
}

/// Bearer authentication provider.
pub struct BearerAuth {
    credential: BearerCredential,
}

impl BearerAuth {
    /// The secret text.
    pub closed spec fn spec_key(&self) -> Seq<char> {
        self.credential.spec_key()
    }

    /// The destination binding.
    pub closed spec fn spec_binding(&self) -> BindingView {
        self.credential.spec_binding()
    }

    /// Creates a Bearer authentication provider.
    pub fn new(credential: BearerCredential) -> (r: Self)
        ensures
            r.spec_key() == credential.spec_key(),
            r.spec_binding() == credential.spec_binding(),
    {
        BearerAuth { credential }
    }

    /// Returns the bound credential destination.
    pub fn binding(&self) -> (r: &CredentialBinding)
        ensures
            r@ == self.spec_binding(),
    {
        self.credential.binding()
    }

    /// Compatibility alias for [`Self::binding`].
    pub fn audience(&self) -> (r: &CredentialBinding)
        ensures
            r@ == self.spec_binding(),
    {
        self.binding()
    }

    /// Produces the Bearer header after validating the credential binding.
    pub fn operation(&self, context: &AuthContext) -> (r: Result<HeaderOperation, LlmError>)
        ensures
            binding_permits(
                self.spec_binding(),
                context.spec_endpoint().spec_origin(),
                context.spec_endpoint().spec_url().path,
            ) ==> (r matches Ok(op) && op@ == HeaderOperationView::Assign(
                "authorization"@,
                encode_utf8("Bearer "@ + self.spec_key()),
                true,
            )),
            !binding_permits(
                self.spec_binding(),
                context.spec_endpoint().spec_origin(),
                context.spec_endpoint().spec_url().path,
            ) ==> (r matches Err(e) && binding_refused(e)),
    {
        self.credential.binding.validate(context.endpoint())?;
        let value = concat(owned("Bearer "), self.credential.key.expose());
        proof {
            lemma_key_is_header_text(self.spec_key());
            lemma_header_text_bytes(value@);
        }
        HeaderOperation::set_sensitive("authorization", value.as_str().as_bytes())
    }

    /// Resolves the Bearer header for an immediately available credential.
    pub fn resolve_immediate(&self, context: &AuthContext) -> (r: Result<Vec<HeaderOperation>, LlmError>)
        ensures
            binding_permits(
                self.spec_binding(),
                context.spec_endpoint().spec_origin(),
                context.spec_endpoint().spec_url().path,
            ) ==> (r matches Ok(ops) && operation_views(ops@) == seq![
                HeaderOperationView::Assign(
                    "authorization"@,
                    encode_utf8("Bearer "@ + self.spec_key()),
                    true,
                ),
            ]),
            !binding_permits(
                self.spec_binding(),
                context.spec_endpoint().spec_origin(),
                context.spec_endpoint().spec_url().path,
            ) ==> (r matches Err(e) && binding_refused(e)),
    {
        let op = self.operation(context)?;
        let ops = vec![op];
        assert(operation_views(ops@) =~= seq![ops@[0]@]);
        Ok(ops)
    }

    /// Returns every header name owned by this provider.
    pub fn protected_headers(&self) -> (r: Vec<String>)
        ensures
            texts(r@) == seq!["authorization"@],
    {
        let r = vec![owned("authorization")];
        assert(texts(r@) =~= seq!["authorization"@]);
        r
    }

    /// Returns the immutable destination binding.
    pub fn credential_binding(&self) -> (r: Option<&CredentialBinding>)
        ensures
            r matches Some(b) && b@ == self.spec_binding(),
    {
        Some(self.binding())
    }

    /// Validates credential binding before the runtime becomes usable.
    pub fn validate_endpoint(&self, endpoint: &ResolvedEndpoint) -> (r: Result<(), LlmError>)
        ensures
            binding_checked(self.spec_binding(), *endpoint, r),
    {
        self.credential.binding.validate(endpoint)
    }

    /// Validates that the final headers carry a well-formed Bearer authorization.
    pub fn validate_final(&self, headers: &ResolvedHeaders) -> (r: Result<(), LlmError>)
        ensures
            (headers@.headers.contains_key("authorization"@) && bearer_value_ok(
                headers@.headers["authorization"@],
            )) ==> r is Ok,
            !(headers@.headers.contains_key("authorization"@) && bearer_value_ok(
                headers@.headers["authorization"@],
            )) ==> (r matches Err(e) && final_check_refused(
                e,
                "request_headers.authorization"@,
                "Bearer auth provider must set authorization"@,
            )),
    {
        let valid = match headers.get("authorization") {
            Some(value) => bearer_value_ok_exec(value),
            None => false,
        };
        if valid {
            Ok(())
        } else {
            Err(
                validation(
                    "request_headers.authorization",
                    ValidationReason::ProtectedHeader,
                    "Bearer auth provider must set authorization",
                ),
            )
        }
    }

    /// Returns the authentication shape.
    pub fn scheme_kind(&self) -> (r: AuthSchemeKind)
        ensures
            r == AuthSchemeKind::Bearer,
    {
        AuthSchemeKind::Bearer
    }

    /// Returns the credential source class.
    pub fn credential_source_kind(&self) -> (r: CredentialSourceKind)
        ensures
            r == CredentialSourceKind::Static,
    {
        CredentialSourceKind::Static
    }
}

/// Why a header name cannot carry authentication, or `None` when it can: names longer
/// than 128 bytes and names owned by the protocol, the transport, the client identity or
/// cookie handling are refused.
pub open spec fn auth_name_rejected(name: Seq<char>) -> bool {
    ||| encode_utf8(name).len() > 128
    ||| name == "host"@
    ||| name == "content-length"@
    ||| name == "content-type"@
    ||| name == "accept"@
    ||| name == "transfer-encoding"@
    ||| name == "connection"@
    ||| name == "cookie"@
    ||| name == "set-cookie"@
    ||| name == "user-agent"@
}

/// The error refusing an authentication header name.
pub open spec fn auth_name_refused(e: LlmError) -> bool {
    is_validation(
        e,
        "auth.header_name"@,
        ValidationReason::ProtectedHeader,
        "header belongs to a non-authentication owner"@,
    )
}

/// Checks that a header name may carry authentication.
pub fn validate_auth_name(name: &str) -> (r: Result<(), LlmError>)
    ensures
        !auth_name_rejected(name@) ==> r is Ok,
        auth_name_rejected(name@) ==> (r matches Err(e) && auth_name_refused(e)),
{
    if name.as_bytes().len() > 128 || str_eq(name, "host") || str_eq(name, "content-length")
        || str_eq(name, "content-type") || str_eq(name, "accept") || str_eq(
        name,
        "transfer-encoding",
    ) || str_eq(name, "connection") || str_eq(name, "cookie") || str_eq(name, "set-cookie")
        || str_eq(name, "user-agent") {
        Err(
            validation(
                "auth.header_name",
                ValidationReason::ProtectedHeader,
                "header belongs to a non-authentication owner",
            ),
        )
    } else {
        Ok(())
    }
}

/// Fixed API-key value written to one explicitly registered authentication header.
pub struct ApiKeyHeaderAuth {
    name: String,
    key: ApiKey,
    binding: CredentialBinding,
}

impl ApiKeyHeaderAuth {
    /// The registered header.
    pub closed spec fn spec_name(&self) -> Seq<char> {
        self.name@
    }

    /// The secret text.
    pub closed spec fn spec_key(&self) -> Seq<char> {
        self.key.spec_value()
    }

    /// The destination binding.
    pub closed spec fn spec_binding(&self) -> BindingView {
        self.binding@
    }

    #[verifier::type_invariant]
    spec fn name_ok(self) -> bool {
        !auth_name_rejected(self.name@)
    }

    /// Creates a fixed API-key authentication provider; the header must not belong to
    /// the protocol, the transport, the client identity or cookie handling.
    pub fn new(name: &str, key: ApiKey, binding: CredentialBinding) -> (r: Result<Self, LlmError>)
        ensures
            !auth_name_rejected(name@) ==> (r matches Ok(a) && a.spec_name() == name@
                && a.spec_key() == key.spec_value() && a.spec_binding() == binding@),
            auth_name_rejected(name@) ==> (r matches Err(e) && auth_name_refused(e)),
    {
        validate_auth_name(name)?;
        Ok(ApiKeyHeaderAuth { name: owned(name), key, binding })
    }

    /// Produces the header after validating the credential binding.
    pub fn operation(&self, context: &AuthContext) -> (r: Result<HeaderOperation, LlmError>)
        ensures
            binding_permits(
                self.spec_binding(),
                context.spec_endpoint().spec_origin(),
                context.spec_endpoint().spec_url().path,
            ) ==> (r matches Ok(op) && op@ == HeaderOperationView::Assign(
                self.spec_name(),
                encode_utf8(self.spec_key()),
                true,
            )),
            !binding_permits(
                self.spec_binding(),
                context.spec_endpoint().spec_origin(),
                context.spec_endpoint().spec_url().path,
            ) ==> (r matches Err(e) && binding_refused(e)),
    {
        self.binding.validate(context.endpoint())?;
        Ok(key_bytes_operation(self.name.as_str(), &self.key))
    }

    /// Resolves the header for an immediately available credential.
    pub fn resolve_immediate(&self, context: &AuthContext) -> (r: Result<Vec<HeaderOperation>, LlmError>)
        ensures
            binding_permits(
                self.spec_binding(),
                context.spec_endpoint().spec_origin(),
                context.spec_endpoint().spec_url().path,
            ) ==> (r matches Ok(ops) && operation_views(ops@) == seq![
                HeaderOperationView::Assign(self.spec_name(), encode_utf8(self.spec_key()), true),
            ]),
            !binding_permits(
                self.spec_binding(),
                context.spec_endpoint().spec_origin(),
                context.spec_endpoint().spec_url().path,
            ) ==> (r matches Err(e) && binding_refused(e)),
    {
        let op = self.operation(context)?;
        let ops = vec![op];
        assert(operation_views(ops@) =~= seq![ops@[0]@]);
        Ok(ops)
    }

    /// Returns every header name owned by this provider.
    pub fn protected_headers(&self) -> (r: Vec<String>)
        ensures
            texts(r@) == seq![self.spec_name()],
    {
        let r = vec![self.name.clone()];
        assert(texts(r@) =~= seq![self.spec_name()]);
        r
    }

    /// Returns the immutable destination binding.
    pub fn credential_binding(&self) -> (r: Option<&CredentialBinding>)
        ensures
            r matches Some(b) && b@ == self.spec_binding(),
    {
        Some(&self.binding)
    }

    /// Validates credential binding before the runtime becomes usable.
    pub fn validate_endpoint(&self, endpoint: &ResolvedEndpoint) -> (r: Result<(), LlmError>)
        ensures
            binding_checked(self.spec_binding(), *endpoint, r),
    {
        self.binding.validate(endpoint)
    }

    /// Validates that the final headers carry the registered header.
    pub fn validate_final(&self, headers: &ResolvedHeaders) -> (r: Result<(), LlmError>)
        ensures
            headers@.headers.contains_key(self.spec_name()) ==> r is Ok,
            !headers@.headers.contains_key(self.spec_name()) ==> (r matches Err(e)
                && final_check_refused(
                e,
                "request_headers.auth"@,
                "API-key auth provider must set its registered header"@,
            )),
    {
        if headers.contains(self.name.as_str()) {
            Ok(())
        } else {
            Err(
                validation(
                    "request_headers.auth",
                    ValidationReason::ProtectedHeader,
                    "API-key auth provider must set its registered header",
                ),
            )
        }
    }

    /// Returns the authentication shape.
    pub fn scheme_kind(&self) -> (r: AuthSchemeKind)
        ensures
            r == AuthSchemeKind::ApiKeyHeader,
    {
        AuthSchemeKind::ApiKeyHeader
    }

    /// Returns the credential source class.
    pub fn credential_source_kind(&self) -> (r: CredentialSourceKind)
        ensures
            r == CredentialSourceKind::Static,
    {
        CredentialSourceKind::Static
    }
}

/// Why a group of authentication header names is refused, as field, reason and summary:
/// the group must hold one to eight names, each acceptable, none twice; names are judged in
/// order, each one before the check for a repeat.
pub open spec fn group_rejection(names: Seq<Seq<char>>) -> Option<
    (Seq<char>, ValidationReason, Seq<char>),
> {
    if names.len() == 0 || names.len() > 8 {
        Some(
            (
                "auth.multi_header"@,
                ValidationReason::OutOfRange,
                "multi-header auth requires one to eight entries"@,
            ),
        )
    } else {
        group_entry_rejection(names, names.len() as int)
    }
}

/// The first problem among the first `k` names of a group.
pub open spec fn group_entry_rejection(names: Seq<Seq<char>>, k: int) -> Option<
    (Seq<char>, ValidationReason, Seq<char>),
>
    decreases k,
{
    if k <= 0 {
        None
    } else {
        match group_entry_rejection(names, k - 1) {
            Some(problem) => Some(problem),
            None => if auth_name_rejected(names[k - 1]) {
                Some(
                    (
                        "auth.header_name"@,
                        ValidationReason::ProtectedHeader,
                        "header belongs to a non-authentication owner"@,
                    ),
                )
            } else if names.take(k - 1).contains(names[k - 1]) {
                Some(
                    (
                        "auth.multi_header"@,
                        ValidationReason::InvalidHeader,
                        "multi-header auth contains a duplicate name"@,
                    ),
                )
            } else {
                None
            },
        }
    }
}

proof fn lemma_group_problem_persists(names: Seq<Seq<char>>, k: int, m: int)
    requires
        0 <= k <= m,
        group_entry_rejection(names, k) is Some,
    ensures
        group_entry_rejection(names, m) == group_entry_rejection(names, k),
    decreases m - k,
{
    if m > k {
        lemma_group_problem_persists(names, k, m - 1);
    }
}

/// The names of a group's entries.
pub open spec fn entry_names(entries: Seq<(String, ApiKey)>) -> Seq<Seq<char>> {
    entries.map_values(|e: (String, ApiKey)| e.0@)
}

/// The operations a group writes: each entry's key under its name, sensitive.
pub open spec fn group_operations(entries: Seq<(String, ApiKey)>) -> Seq<HeaderOperationView> {
    entries.map_values(
        |e: (String, ApiKey)| HeaderOperationView::Assign(e.0@, encode_utf8(e.1.spec_value()), true),
    )
}

/// Atomic fixed group of authentication headers.
pub struct MultiHeaderAuth {
    entries: Vec<(String, ApiKey)>,
    binding: CredentialBinding,
}

impl MultiHeaderAuth {
    /// The group's entries.
    pub closed spec fn spec_entries(&self) -> Seq<(String, ApiKey)> {
        self.entries@
    }

    /// The destination binding.
    pub closed spec fn spec_binding(&self) -> BindingView {
        self.binding@
    }

    #[verifier::type_invariant]
    spec fn group_ok(self) -> bool {
        group_rejection(entry_names(self.entries@)) is None
    }

    /// Creates a non-empty, duplicate-free authentication group of at most eight headers.
    pub fn new(entries: Vec<(String, ApiKey)>, binding: CredentialBinding) -> (r: Result<
        Self,
        LlmError,
    >)
        ensures
            match group_rejection(entry_names(entries@)) {
                None => r matches Ok(a) && a.spec_entries() == entries@ && a.spec_binding()
                    == binding@,
                Some(problem) => r matches Err(e) && is_validation(e, problem.0, problem.1, problem.2),
            },
    {
        let ghost names = entry_names(entries@);
        if entries.len() == 0 || entries.len() > 8 {
            return Err(
                validation(
                    "auth.multi_header",
                    ValidationReason::OutOfRange,
                    "multi-header auth requires one to eight entries",
                ),
            );
        }
        let mut i: usize = 0;
        while i < entries.len()
            invariant
                i <= entries@.len(),
                names == entry_names(entries@),
                1 <= entries@.len() <= 8,
                group_entry_rejection(names, i as int) is None,
            decreases entries@.len() - i,
        {
            let name = entries[i].0.as_str();
            proof {
                assert(names[i as int] == name@);
            }
            match validate_auth_name(name) {
                Ok(()) => {},
                Err(e) => {
                    proof {
                        assert(group_entry_rejection(names, i + 1) is Some);
                        lemma_group_problem_persists(names, i + 1, names.len() as int);
                    }
                    return Err(e);
                },
            }
            let mut j: usize = 0;
            while j < i
                invariant
                    j <= i,
                    i < entries@.len(),
                    1 <= entries@.len() <= 8,
                    group_entry_rejection(names, i as int) is None,
                    !auth_name_rejected(name@),
                    names == entry_names(entries@),
                    names[i as int] == name@,
                    forall|k: int| 0 <= k < j ==> #[trigger] names[k] != name@,
                decreases i - j,
            {
                if str_eq(entries[j].0.as_str(), name) {
                    proof {
                        assert(names[j as int] == name@);
                        assert(names.take(i as int)[j as int] == name@);
                        assert(names.take(i as int).contains(name@));
                        assert(group_entry_rejection(names, i + 1) is Some);
                        lemma_group_problem_persists(names, i + 1, names.len() as int);
                    }
                    return Err(
                        validation(
                            "auth.multi_header",
                            ValidationReason::InvalidHeader,
                            "multi-header auth contains a duplicate name",
                        ),
                    );
                }
                proof {
                    assert(names[j as int] == entries@[j as int].0@);
                }
                j = j + 1;
            }
            proof {
                if names.take(i as int).contains(name@) {
                    let k = choose|k: int| 0 <= k < i && names.take(i as int)[k] == name@;
                    assert(names[k] == name@);
                }
            }
            i = i + 1;
        }
        Ok(MultiHeaderAuth { entries, binding })
    }

    /// Produces the complete group after validating the credential binding.
    pub fn operations(&self, context: &AuthContext) -> (r: Result<Vec<HeaderOperation>, LlmError>)
        ensures
            binding_permits(
                self.spec_binding(),
                context.spec_endpoint().spec_origin(),
                context.spec_endpoint().spec_url().path,
            ) ==> (r matches Ok(ops) && operation_views(ops@) == group_operations(
                self.spec_entries(),
            )),
            !binding_permits(
                self.spec_binding(),
                context.spec_endpoint().spec_origin(),
                context.spec_endpoint().spec_url().path,
            ) ==> (r matches Err(e) && binding_refused(e)),
    {
        self.binding.validate(context.endpoint())?;
        let mut ops: Vec<HeaderOperation> = Vec::new();
        let mut i: usize = 0;
        while i < self.entries.len()
            invariant
                i <= self.entries@.len(),
                ops@.len() == i,
                forall|k: int| 0 <= k < i ==> (#[trigger] ops@[k])@ == group_operations(
                    self.entries@,
                )[k],
            decreases self.entries@.len() - i,
        {
            let entry = &self.entries[i];
            ops.push(key_bytes_operation(entry.0.as_str(), &entry.1));
            i = i + 1;
        }
        assert(operation_views(ops@) =~= group_operations(self.entries@));
        Ok(ops)
    }

    /// Resolves the group for immediately available credentials.
    pub fn resolve_immediate(&self, context: &AuthContext) -> (r: Result<Vec<HeaderOperation>, LlmError>)
        ensures
            binding_permits(
                self.spec_binding(),
                context.spec_endpoint().spec_origin(),
                context.spec_endpoint().spec_url().path,
            ) ==> (r matches Ok(ops) && operation_views(ops@) == group_operations(
                self.spec_entries(),
            )),
            !binding_permits(
                self.spec_binding(),
                context.spec_endpoint().spec_origin(),
                context.spec_endpoint().spec_url().path,
            ) ==> (r matches Err(e) && binding_refused(e)),
    {
        self.operations(context)
    }

    /// Returns every header name owned by this provider.
    pub fn protected_headers(&self) -> (r: Vec<String>)
        ensures
            texts(r@) == entry_names(self.spec_entries()),
    {
        let mut out: Vec<String> = Vec::new();
        let mut i: usize = 0;
        while i < self.entries.len()
            invariant
                i <= self.entries@.len(),
                out@.len() == i,
                forall|k: int| 0 <= k < i ==> #[trigger] out@[k]@ == self.entries@[k].0@,
            decreases self.entries@.len() - i,
        {
            out.push(self.entries[i].0.clone());
            i = i + 1;
        }
        assert(texts(out@) =~= entry_names(self.entries@));
        out
    }

    /// Returns the immutable destination binding.
    pub fn credential_binding(&self) -> (r: Option<&CredentialBinding>)
        ensures
            r matches Some(b) && b@ == self.spec_binding(),
    {
        Some(&self.binding)
    }

    /// Validates credential binding before the runtime becomes usable.
    pub fn validate_endpoint(&self, endpoint: &ResolvedEndpoint) -> (r: Result<(), LlmError>)
        ensures
            binding_checked(self.spec_binding(), *endpoint, r),
    {
        self.binding.validate(endpoint)
    }

    /// Validates that the final headers carry the complete group.
    pub fn validate_final(&self, headers: &ResolvedHeaders) -> (r: Result<(), LlmError>)
        ensures
            (forall|k: int|
                0 <= k < self.spec_entries().len() ==> headers@.headers.contains_key(
                    #[trigger] entry_names(self.spec_entries())[k],
                )) ==> r is Ok,
            !(forall|k: int|
                0 <= k < self.spec_entries().len() ==> headers@.headers.contains_key(
                    #[trigger] entry_names(self.spec_entries())[k],
                )) ==> (r matches Err(e) && final_check_refused(
                e,
                "request_headers.auth"@,
                "multi-header auth provider must set its complete group"@,
            )),
    {
        let mut i: usize = 0;
        while i < self.entries.len()
            invariant
                i <= self.entries@.len(),
                forall|k: int|
                    0 <= k < i ==> headers@.headers.contains_key(
                        #[trigger] entry_names(self.entries@)[k],
                    ),
            decreases self.entries@.len() - i,
        {
            if !headers.contains(self.entries[i].0.as_str()) {
                proof {
                    assert(entry_names(self.entries@)[i as int] == self.entries@[i as int].0@);
                    assert(!headers@.headers.contains_key(entry_names(self.spec_entries())[i as int]));
                }
                return Err(
                    validation(
                        "request_headers.auth",
                        ValidationReason::ProtectedHeader,
                        "multi-header auth provider must set its complete group",
                    ),
                );
            }
            proof {
                assert(entry_names(self.entries@)[i as int] == self.entries@[i as int].0@);
            }
            i = i + 1;
        }
        Ok(())
    }

    /// Returns the authentication shape.
    pub fn scheme_kind(&self) -> (r: AuthSchemeKind)
        ensures
            r == AuthSchemeKind::MultiHeader,
    {
        AuthSchemeKind::MultiHeader
    }

    /// Returns the credential source class.
    pub fn credential_source_kind(&self) -> (r: CredentialSourceKind)
        ensures
            r == CredentialSourceKind::Static,
    {
        CredentialSourceKind::Static
    }
}

impl NoAuth {
    /// Resolves no headers.
    pub fn resolve_immediate(&self, context: &AuthContext) -> (r: Result<Vec<HeaderOperation>, LlmError>)
        ensures
            r matches Ok(ops) && ops@.len() == 0,
    {
        Ok(Vec::new())
    }

    /// Owns no headers.
    pub fn protected_headers(&self) -> (r: Vec<String>)
        ensures
            r@.len() == 0,
    {
        Vec::new()
    }

    /// Carries no credential, so no binding.
    pub fn credential_binding(&self) -> (r: Option<&CredentialBinding>)
        ensures
            r is None,
    {
        None
    }

    /// Any endpoint is acceptable without a credential.
    pub fn validate_endpoint(&self, endpoint: &ResolvedEndpoint) -> (r: Result<(), LlmError>)
        ensures
            r is Ok,
    {
        Ok(())
    }

    /// Validates that the final headers carry no authorization.
    pub fn validate_final(&self, headers: &ResolvedHeaders) -> (r: Result<(), LlmError>)
        ensures
            !(headers@.headers.contains_key("authorization"@) || headers@.headers.contains_key(
                "proxy-authorization"@,
            )) ==> r is Ok,
            (headers@.headers.contains_key("authorization"@) || headers@.headers.contains_key(
                "proxy-authorization"@,
            )) ==> (r matches Err(e) && final_check_refused(
                e,
                "request_headers.auth"@,
                "NoAuth runtime must not contain authorization headers"@,
            )),
    {
        if headers.contains("authorization") || headers.contains("proxy-authorization") {
            Err(
                validation(
                    "request_headers.auth",
                    ValidationReason::ProtectedHeader,
                    "NoAuth runtime must not contain authorization headers",
                ),
            )
        } else {
            Ok(())
        }
    }
}

/// A header name that an authentication provider accepts, once registered to Auth in a
/// header policy, is one that the Auth layer may always set to a sensitive value.
pub proof fn lemma_registered_auth_header_passes(policy: HeaderPolicyView, name: Seq<char>)
    requires
        policy.auth.contains(name),
        !auth_name_rejected(name),
    ensures
        header_allowed(policy, HeaderSource::Auth, name),
        operation_rejection(policy, HeaderSource::Auth, name, true) is None,
{
}

} // verus!
