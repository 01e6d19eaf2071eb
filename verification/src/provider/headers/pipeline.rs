//! Layered header resolution with protected-field enforcement.
//!
//! Header names are canonical lower-case HTTP field names; values are the bytes that
//! `http::HeaderValue` accepts.

use vstd::prelude::*;

use crate::error::{is_validation, validation, LlmError, ValidationReason};
use crate::keyed::{
    keyed_map, lemma_keyed_insert, lemma_keyed_remove, lemma_keyed_update, name_position,
    names_sorted,
};
use crate::text::{all_in_set, concat, in_set, owned, starts_with, str_eq, str_starts_with, CharSet};
use vstd::utf8::{encode_scalar, encode_utf8};

use super::{source_rank, HeaderSource};

verus! {

/// A byte that an HTTP field value may hold: visible ASCII, obs-text, space or tab.
pub open spec fn valid_header_byte(b: u8) -> bool {
    (32 <= b && b != 127) || b == 9
}

/// Every byte is one an HTTP field value may hold.
pub open spec fn valid_header_bytes(bytes: Seq<u8>) -> bool {
    forall|i: int| 0 <= i < bytes.len() ==> valid_header_byte(#[trigger] bytes[i])
}

/// Whether `http::HeaderValue::from_bytes` accepts the bytes: it does exactly when each
/// byte is at least 32 and not 127, or is a tab.
#[verifier::external_body]
fn header_bytes_accepted(bytes: &[u8]) -> (r: bool)
    ensures
        r == valid_header_bytes(bytes@),
{
    http::HeaderValue::from_bytes(bytes).is_ok()
}

fn copy_bytes(bytes: &[u8]) -> (r: Vec<u8>)
    ensures
        r@ == bytes@,
{
    let mut out: Vec<u8> = Vec::new();
    let mut i: usize = 0;
    while i < bytes.len()
        invariant
            i <= bytes@.len(),
            out@ == bytes@.take(i as int),
        decreases bytes@.len() - i,
    {
        out.push(bytes[i]);
        proof {
            assert(bytes@.take(i + 1) =~= bytes@.take(i as int).push(bytes@[i as int]));
        }
        i = i + 1;
    }
    assert(bytes@.take(bytes@.len() as int) =~= bytes@);
    out
}

/// Text whose characters may all appear in a header value encodes to bytes that may.
pub proof fn lemma_header_text_bytes(text: Seq<char>)
    requires
        all_in_set(text, CharSet::HeaderValue),
    ensures
        valid_header_bytes(encode_utf8(text)),
    decreases text.len(),
{
    if text.len() > 0 {
        let rest = text.drop_first();
        assert forall|i: int| 0 <= i < rest.len() implies #[trigger] in_set(
            rest[i],
            CharSet::HeaderValue,
        ) by {
            assert(rest[i] == text[i + 1]);
        }
        lemma_header_text_bytes(rest);
        assert(in_set(text[0], CharSet::HeaderValue));
        let c = text[0] as u32;
        let head = encode_scalar(c);
        if c <= 0x7f {
            assert((c & 0x7F) as u8 == c as u8 && (c as u8) as u32 == c) by (bit_vector)
                requires
                    c <= 0x7f,
            ;
            assert(head == seq![c as u8]);
            assert(head[0] as u32 == c);
        } else {
            assert((0xC0u8 | ((c >> 6) & 0x1F) as u8) >= 0x80) by (bit_vector);
            assert((0xE0u8 | ((c >> 12) & 0x0F) as u8) >= 0x80) by (bit_vector);
            assert((0xF0u8 | ((c >> 18) & 0x7) as u8) >= 0x80) by (bit_vector);
            assert((0x80u8 | (c & 0x3F) as u8) >= 0x80) by (bit_vector);
            assert((0x80u8 | ((c >> 6) & 0x3F) as u8) >= 0x80) by (bit_vector);
            assert((0x80u8 | ((c >> 12) & 0x3F) as u8) >= 0x80) by (bit_vector);
        }
        assert(valid_header_bytes(head));
        let all = encode_utf8(text);
        assert(all == head + encode_utf8(rest));
        assert forall|i: int| 0 <= i < all.len() implies valid_header_byte(#[trigger] all[i]) by {
            if i < head.len() {
                assert(all[i] == head[i]);
            } else {
                assert(all[i] == encode_utf8(rest)[i - head.len()]);
            }
        }
    }
}

/// Header value whose formatting is always redacted.
pub struct SensitiveHeaderValue {
    value: Vec<u8>,
    sensitive: bool,
}

impl View for SensitiveHeaderValue {
    type V = (Seq<u8>, bool);

    closed spec fn view(&self) -> (Seq<u8>, bool) {
        (self.value@, self.sensitive)
    }
}

impl SensitiveHeaderValue {
    #[verifier::type_invariant]
    spec fn bytes_valid(self) -> bool {
        valid_header_bytes(self.value@)
    }

    /// Parses bytes as an HTTP header value.
    pub fn from_bytes(bytes: &[u8], sensitive: bool) -> (r: Result<Self, LlmError>)
        ensures
            valid_header_bytes(bytes@) ==> (r matches Ok(v) && v@ == (bytes@, sensitive)),
            !valid_header_bytes(bytes@) ==> (r matches Err(e) && is_validation(
                e,
                "request_headers"@,
                ValidationReason::InvalidHeader,
                "invalid header value"@,
            )),
    {
        if !header_bytes_accepted(bytes) {
            return Err(
                validation("request_headers", ValidationReason::InvalidHeader, "invalid header value"),
            );
        }
        let value = copy_bytes(bytes);
        Ok(SensitiveHeaderValue { value, sensitive })
    }

    /// Returns whether the value must be treated as sensitive.
    pub fn is_sensitive(&self) -> (r: bool)
        ensures
            r == self@.1,
    {
        self.sensitive
    }

    /// Returns the value's bytes.
    pub fn value(&self) -> (r: &[u8])
        ensures
            r@ == self@.0,
            valid_header_bytes(r@),
    {
        proof {
            use_type_invariant(self);
        }
        self.value.as_slice()
    }

    /// Copies the value.
    pub fn duplicate(&self) -> (r: Self)
        ensures
            r@ == self@,
    {
        proof {
            use_type_invariant(self);
        }
        let value = copy_bytes(self.value.as_slice());
        SensitiveHeaderValue { value, sensitive: self.sensitive }
    }
}

/// Mathematical form of a [`HeaderOperation`].
pub enum HeaderOperationView {
    /// Set the named header to the bytes, marked sensitive or not.
    Assign(Seq<char>, Seq<u8>, bool),
    /// Remove the named header.
    Remove(Seq<char>),
}

/// Set or remove operation applied within one header layer.
pub enum HeaderOperation {
    /// Set a header value.
    Assign {
        /// Canonical HTTP header name.
        name: String,
        /// Redaction-aware header value.
        value: SensitiveHeaderValue,
    },
    /// Remove a header established by a lower-priority layer.
    Remove {
        /// Canonical HTTP header name.
        name: String,
    },
}

impl View for HeaderOperation {
    type V = HeaderOperationView;

    open spec fn view(&self) -> HeaderOperationView {
        match self {
            HeaderOperation::Assign { name, value } => HeaderOperationView::Assign(
                name@,
                value@.0,
                value@.1,
            ),
            HeaderOperation::Remove { name } => HeaderOperationView::Remove(name@),
        }
    }
}

impl HeaderOperation {
    /// Creates a non-sensitive set operation.
    pub fn set(name: &str, value: &[u8]) -> (r: Result<Self, LlmError>)
        ensures
            valid_header_bytes(value@) ==> (r matches Ok(op) && op@ == HeaderOperationView::Assign(
                name@,
                value@,
                false,
            )),
            !valid_header_bytes(value@) ==> (r matches Err(e) && is_validation(
                e,
                "request_headers"@,
                ValidationReason::InvalidHeader,
                "invalid header value"@,
            )),
    {
        let value = SensitiveHeaderValue::from_bytes(value, false)?;
        Ok(HeaderOperation::Assign { name: owned(name), value })
    }

    /// Creates a sensitive set operation.
    pub fn set_sensitive(name: &str, value: &[u8]) -> (r: Result<Self, LlmError>)
        ensures
            valid_header_bytes(value@) ==> (r matches Ok(op) && op@ == HeaderOperationView::Assign(
                name@,
                value@,
                true,
            )),
            !valid_header_bytes(value@) ==> (r matches Err(e) && is_validation(
                e,
                "request_headers"@,
                ValidationReason::InvalidHeader,
                "invalid header value"@,
            )),
    {
        let value = SensitiveHeaderValue::from_bytes(value, true)?;
        Ok(HeaderOperation::Assign { name: owned(name), value })
    }

    /// Creates a remove operation.
    pub fn remove(name: &str) -> (r: Self)
        ensures
            r@ == HeaderOperationView::Remove(name@),
    {
        HeaderOperation::Remove { name: owned(name) }
    }

    /// Returns the header the operation acts on.
    pub fn name(&self) -> (r: &str)
        ensures
            r@ == operation_name(self@),
    {
        match self {
            HeaderOperation::Assign { name, .. } => name.as_str(),
            HeaderOperation::Remove { name } => name.as_str(),
        }
    }
}

impl HeaderOperation {
    /// Copies the operation.
    pub fn duplicate(&self) -> (r: Self)
        ensures
            r@ == self@,
    {
        match self {
            HeaderOperation::Assign { name, value } => HeaderOperation::Assign {
                name: name.clone(),
                value: value.duplicate(),
            },
            HeaderOperation::Remove { name } => HeaderOperation::Remove { name: name.clone() },
        }
    }
}

/// Copies a list of operations.
pub fn duplicate_operations(ops: &Vec<HeaderOperation>) -> (r: Vec<HeaderOperation>)
    ensures
        operation_views(r@) == operation_views(ops@),
{
    let mut out: Vec<HeaderOperation> = Vec::new();
    let mut i: usize = 0;
    while i < ops.len()
        invariant
            i <= ops@.len(),
            out@.len() == i,
            forall|k: int| 0 <= k < i ==> (#[trigger] out@[k])@ == ops@[k]@,
        decreases ops@.len() - i,
    {
        out.push(ops[i].duplicate());
        i = i + 1;
    }
    assert(operation_views(out@) =~= operation_views(ops@));
    out
}

/// The header an operation acts on.
pub open spec fn operation_name(op: HeaderOperationView) -> Seq<char> {
    match op {
        HeaderOperationView::Assign(name, _, _) => name,
        HeaderOperationView::Remove(name) => name,
    }
}

/// The views of a list of operations.
pub open spec fn operation_views(ops: Seq<HeaderOperation>) -> Seq<HeaderOperationView> {
    ops.map_values(|op: HeaderOperation| op@)
}

/// Operations contributed by one priority layer.
pub struct HeaderLayer {
    source: HeaderSource,
    operations: Vec<HeaderOperation>,
}

impl View for HeaderLayer {
    type V = (HeaderSource, Seq<HeaderOperationView>);

    closed spec fn view(&self) -> (HeaderSource, Seq<HeaderOperationView>) {
        (self.source, operation_views(self.operations@))
    }
}

impl HeaderLayer {
    /// Creates a layer while preserving operation order within that layer.
    pub fn new(source: HeaderSource, operations: Vec<HeaderOperation>) -> (r: Self)
        ensures
            r@ == (source, operation_views(operations@)),
    {
        HeaderLayer { source, operations }
    }

    /// Returns the source.
    pub fn source(&self) -> (r: HeaderSource)
        ensures
            r == self@.0,
    {
        self.source
    }

    /// Returns operations.
    pub fn operations(&self) -> (r: &[HeaderOperation])
        ensures
            operation_views(r@) == self@.1,
    {
        self.operations.as_slice()
    }
}

/// The texts of a list of names.
pub open spec fn texts(names: Seq<String>) -> Seq<Seq<char>> {
    names.map_values(|n: String| n@)
}

fn contains_name(names: &Vec<String>, name: &str) -> (r: bool)
    ensures
        r == texts(names@).contains(name@),
{
    let mut i: usize = 0;
    while i < names.len()
        invariant
            i <= names@.len(),
            forall|k: int| 0 <= k < i ==> #[trigger] names@[k]@ != name@,
        decreases names@.len() - i,
    {
        if str_eq(names[i].as_str(), name) {
            proof {
                assert(texts(names@)[i as int] == name@);
            }
            return true;
        }
        i = i + 1;
    }
    proof {
        if texts(names@).contains(name@) {
            let k = choose|k: int| 0 <= k < texts(names@).len() && texts(names@)[k] == name@;
            assert(names@[k]@ == name@);
        }
    }
    false
}

/// Headers that only their fixed owner layer may write, or that no layer may write.
pub open spec fn is_protected_header(name: Seq<char>) -> bool {
    ||| name == "authorization"@
    ||| name == "proxy-authorization"@
    ||| name == "content-type"@
    ||| name == "accept"@
    ||| name == "user-agent"@
    ||| name == "host"@
    ||| name == "content-length"@
    ||| name == "transfer-encoding"@
    ||| name == "connection"@
    ||| name == "cookie"@
    ||| name == "set-cookie"@
}

/// Whether a header is one that only its fixed owner layer, or no layer, may write.
pub fn protected_header(name: &str) -> (r: bool)
    ensures
        r == is_protected_header(name@),
{
    str_eq(name, "authorization") || str_eq(name, "proxy-authorization") || str_eq(
        name,
        "content-type",
    ) || str_eq(name, "accept") || str_eq(name, "user-agent") || str_eq(name, "host") || str_eq(
        name,
        "content-length",
    ) || str_eq(name, "transfer-encoding") || str_eq(name, "connection") || str_eq(name, "cookie")
        || str_eq(name, "set-cookie")
}

/// Headers that no layer may write.
pub open spec fn is_transport_owned(name: Seq<char>) -> bool {
    ||| name == "host"@
    ||| name == "content-length"@
    ||| name == "transfer-encoding"@
    ||| name == "connection"@
    ||| name == "cookie"@
    ||| name == "set-cookie"@
}

/// A vendor header, or the idempotency key.
pub open spec fn is_ordinary_header(name: Seq<char>) -> bool {
    starts_with(name, "x-"@) || name == "idempotency-key"@
}

fn ordinary_header(name: &str) -> (r: bool)
    ensures
        r == is_ordinary_header(name@),
{
    str_starts_with(name, "x-") || str_eq(name, "idempotency-key")
}

/// Mathematical form of a [`HeaderPolicy`]: the names Auth owns and those Provider owns.
pub struct HeaderPolicyView {
    pub auth: Seq<Seq<char>>,
    pub provider: Seq<Seq<char>>,
}

/// Protected-header policy with explicit authentication-header registration.
pub struct HeaderPolicy {
    auth_headers: Vec<String>,
    provider_headers: Vec<String>,
}

impl View for HeaderPolicy {
    type V = HeaderPolicyView;

    closed spec fn view(&self) -> HeaderPolicyView {
        HeaderPolicyView { auth: texts(self.auth_headers@), provider: texts(self.provider_headers@) }
    }
}

/// The header is protected from ordinary layers under the policy.
pub open spec fn policy_protects(policy: HeaderPolicyView, name: Seq<char>) -> bool {
    is_protected_header(name) || policy.auth.contains(name) || policy.provider.contains(name)
}

/// Whether the policy lets `source` write the header.
pub open spec fn header_allowed(
    policy: HeaderPolicyView,
    source: HeaderSource,
    name: Seq<char>,
) -> bool {
    if name == "authorization"@ || name == "proxy-authorization"@ {
        source == HeaderSource::Auth && policy.auth.contains(name)
    } else if name == "content-type"@ || name == "accept"@ {
        source == HeaderSource::Protocol
    } else if name == "user-agent"@ {
        source == HeaderSource::ClientIdentity
    } else if is_transport_owned(name) {
        false
    } else if policy.auth.contains(name) {
        source == HeaderSource::Auth
    } else if policy.provider.contains(name) {
        source == HeaderSource::Provider
    } else {
        match source {
            HeaderSource::Transport | HeaderSource::Auth => false,
            HeaderSource::Protocol => true,
            HeaderSource::Provider | HeaderSource::Model | HeaderSource::DynamicPolicy
            | HeaderSource::Request => is_ordinary_header(name),
            HeaderSource::ClientIdentity => starts_with(name, "x-"@),
        }
    }
}

impl HeaderPolicy {
    /// Creates the compatibility policy with Bearer auth registered.
    pub fn new() -> (r: Self)
        ensures
            r@ == (HeaderPolicyView { auth: seq!["authorization"@], provider: Seq::empty() }),
    {
        let r = HeaderPolicy { auth_headers: vec![owned("authorization")], provider_headers: Vec::new() };
        assert(r@.auth =~= seq!["authorization"@]);
        assert(r@.provider =~= Seq::<Seq<char>>::empty());
        r
    }

    /// Creates a policy registering the exact authentication headers owned by Auth.
    pub fn with_auth_headers(headers: Vec<String>) -> (r: Self)
        ensures
            r@ == (HeaderPolicyView { auth: texts(headers@), provider: Seq::empty() }),
    {
        let r = HeaderPolicy { auth_headers: headers, provider_headers: Vec::new() };
        assert(r@.provider =~= Seq::<Seq<char>>::empty());
        r
    }

    /// Creates a policy with exact Auth and Provider-owned header registrations.
    pub fn with_registered_headers(auth_headers: Vec<String>, provider_headers: Vec<String>) -> (r:
        Self)
        ensures
            r@ == (HeaderPolicyView { auth: texts(auth_headers@), provider: texts(provider_headers@) }),
    {
        HeaderPolicy { auth_headers, provider_headers }
    }

    /// Returns whether Auth owns this header.
    pub fn is_auth_header(&self, name: &str) -> (r: bool)
        ensures
            r == self@.auth.contains(name@),
    {
        contains_name(&self.auth_headers, name)
    }

    /// Returns whether a header is protected from ordinary layers.
    pub fn is_protected(&self, name: &str) -> (r: bool)
        ensures
            r == policy_protects(self@, name@),
    {
        protected_header(name) || self.is_auth_header(name) || contains_name(
            &self.provider_headers,
            name,
        )
    }

    fn is_provider_header(&self, name: &str) -> (r: bool)
        ensures
            r == self@.provider.contains(name@),
    {
        contains_name(&self.provider_headers, name)
    }

    fn allows(&self, source: HeaderSource, name: &str) -> (r: bool)
        ensures
            r == header_allowed(self@, source, name@),
    {
        if str_eq(name, "authorization") || str_eq(name, "proxy-authorization") {
            source == HeaderSource::Auth && self.is_auth_header(name)
        } else if str_eq(name, "content-type") || str_eq(name, "accept") {
            source == HeaderSource::Protocol
        } else if str_eq(name, "user-agent") {
            source == HeaderSource::ClientIdentity
        } else if str_eq(name, "host") || str_eq(name, "content-length") || str_eq(
            name,
            "transfer-encoding",
        ) || str_eq(name, "connection") || str_eq(name, "cookie") || str_eq(name, "set-cookie") {
            false
        } else if self.is_auth_header(name) {
            source == HeaderSource::Auth
        } else if self.is_provider_header(name) {
            source == HeaderSource::Provider
        } else {
            match source {
                HeaderSource::Transport | HeaderSource::Auth => false,
                HeaderSource::Protocol => true,
                HeaderSource::Provider | HeaderSource::Model | HeaderSource::DynamicPolicy
                | HeaderSource::Request => ordinary_header(name),
                HeaderSource::ClientIdentity => str_starts_with(name, "x-"),
            }
        }
    }

    fn duplicate(&self) -> (r: Self)
        ensures
            r@ == self@,
    {
        let auth_headers = clone_names(&self.auth_headers);
        let provider_headers = clone_names(&self.provider_headers);
        HeaderPolicy { auth_headers, provider_headers }
    }
}

fn clone_names(names: &Vec<String>) -> (r: Vec<String>)
    ensures
        texts(r@) == texts(names@),
{
    let mut out: Vec<String> = Vec::new();
    let mut i: usize = 0;
    while i < names.len()
        invariant
            i <= names@.len(),
            out@.len() == i,
            forall|k: int| 0 <= k < i ==> #[trigger] out@[k]@ == names@[k]@,
        decreases names@.len() - i,
    {
        out.push(names[i].clone());
        i = i + 1;
    }
    assert(texts(out@) =~= texts(names@));
    out
}

impl Default for HeaderPolicy {
    fn default() -> (r: Self)
        ensures
            r@ == (HeaderPolicyView { auth: seq!["authorization"@], provider: Seq::empty() }),
    {
        Self::new()
    }
}

/// One recorded resolution step: header, layer, whether it is present afterwards, whether
/// it is protected, and whether its value is sensitive.
pub type HeaderStepView = (Seq<char>, HeaderSource, bool, bool, bool);

/// Mathematical form of [`ResolvedHeaders`]: the final headers by name, and every step in
/// the order it was applied.
pub struct ResolvedHeadersView {
    pub headers: Map<Seq<char>, Seq<u8>>,
    pub steps: Seq<HeaderStepView>,
}

/// Why an operation is refused, as its summary, or `None` when the source may apply it.
pub open spec fn operation_rejection(
    policy: HeaderPolicyView,
    source: HeaderSource,
    name: Seq<char>,
    sensitive: bool,
) -> Option<Seq<char>> {
    if !header_allowed(policy, source, name) {
        Some("header is protected for this source"@)
    } else if source == HeaderSource::Auth && !sensitive {
        Some("authentication headers must be sensitive"@)
    } else if source != HeaderSource::Auth && sensitive && !(source == HeaderSource::Provider
        && policy.provider.contains(name)) {
        Some("ordinary header layers cannot carry sensitive values"@)
    } else {
        None
    }
}

/// A refused resolution: the field named in the error and its summary.
pub type HeaderRefusal = (Seq<char>, Seq<char>);

/// Applies one operation of `source` to a resolution in progress; a refused resolution
/// stays refused.
pub open spec fn apply_operation(
    policy: HeaderPolicyView,
    state: Result<ResolvedHeadersView, HeaderRefusal>,
    step: (HeaderSource, HeaderOperationView),
) -> Result<ResolvedHeadersView, HeaderRefusal> {
    match state {
        Err(refusal) => Err(refusal),
        Ok(s) => {
            let source = step.0;
            match step.1 {
                HeaderOperationView::Assign(name, value, sensitive) => match operation_rejection(
                    policy,
                    source,
                    name,
                    sensitive,
                ) {
                    Some(summary) => Err(("request_headers."@ + name, summary)),
                    None => Ok(
                        ResolvedHeadersView {
                            headers: s.headers.insert(name, value),
                            steps: s.steps.push(
                                (name, source, true, policy_protects(policy, name), sensitive),
                            ),
                        },
                    ),
                },
                HeaderOperationView::Remove(name) => match operation_rejection(
                    policy,
                    source,
                    name,
                    false,
                ) {
                    Some(summary) => Err(("request_headers."@ + name, summary)),
                    None => Ok(
                        ResolvedHeadersView {
                            headers: s.headers.remove(name),
                            steps: s.steps.push(
                                (name, source, false, policy_protects(policy, name), false),
                            ),
                        },
                    ),
                },
            }
        },
    }
}

/// Applies operations in order, from `start`.
pub open spec fn apply_operations(
    policy: HeaderPolicyView,
    start: Result<ResolvedHeadersView, HeaderRefusal>,
    steps: Seq<(HeaderSource, HeaderOperationView)>,
) -> Result<ResolvedHeadersView, HeaderRefusal>
    decreases steps.len(),
{
    if steps.len() == 0 {
        start
    } else {
        apply_operation(policy, apply_operations(policy, start, steps.drop_last()), steps.last())
    }
}

/// Nothing resolved yet.
pub open spec fn no_headers() -> ResolvedHeadersView {
    ResolvedHeadersView { headers: Map::empty(), steps: Seq::empty() }
}

/// The operations of one layer, each with the layer's source.
pub open spec fn layer_operations(layer: (HeaderSource, Seq<HeaderOperationView>)) -> Seq<
    (HeaderSource, HeaderOperationView),
> {
    layer.1.map_values(|op: HeaderOperationView| (layer.0, op))
}

/// The operations of the layers whose source has the given rank, in layer order.
pub open spec fn rank_operations(
    layers: Seq<(HeaderSource, Seq<HeaderOperationView>)>,
    rank: int,
) -> Seq<(HeaderSource, HeaderOperationView)>
    decreases layers.len(),
{
    if layers.len() == 0 {
        Seq::empty()
    } else if source_rank(layers.last().0) == rank {
        rank_operations(layers.drop_last(), rank) + layer_operations(layers.last())
    } else {
        rank_operations(layers.drop_last(), rank)
    }
}

/// The operations of the layers of the `ranks` lowest priorities, lowest priority first and
/// layers of one priority in their given order.
pub open spec fn operations_by_priority(
    layers: Seq<(HeaderSource, Seq<HeaderOperationView>)>,
    ranks: nat,
) -> Seq<(HeaderSource, HeaderOperationView)>
    decreases ranks,
{
    if ranks == 0 {
        Seq::empty()
    } else {
        operations_by_priority(layers, (ranks - 1) as nat) + rank_operations(
            layers,
            ranks - 1,
        )
    }
}

/// Every operation of every layer, lowest source priority first, each priority's layers in
/// their given order.
pub open spec fn ordered_operations(layers: Seq<(HeaderSource, Seq<HeaderOperationView>)>) -> Seq<
    (HeaderSource, HeaderOperationView),
> {
    operations_by_priority(layers, 8)
}

/// The views of a list of layers.
pub open spec fn layer_views(layers: Seq<HeaderLayer>) -> Seq<(HeaderSource, Seq<HeaderOperationView>)> {
    layers.map_values(|l: HeaderLayer| l@)
}

/// What resolving `layers` under `policy` gives, before the final checks.
pub open spec fn layers_resolution(
    policy: HeaderPolicyView,
    layers: Seq<(HeaderSource, Seq<HeaderOperationView>)>,
) -> Result<ResolvedHeadersView, HeaderRefusal> {
    apply_operations(policy, Ok(no_headers()), ordered_operations(layers))
}

/// The bytes of `application/json`.
pub open spec fn json_media_type() -> Seq<u8> {
    seq![97u8, 112, 112, 108, 105, 99, 97, 116, 105, 111, 110, 47, 106, 115, 111, 110]
}

/// Why final headers are refused, or `None` when they carry the JSON content type and,
/// where Auth owns headers, at least one of them.
pub open spec fn compatibility_rejection(
    policy: HeaderPolicyView,
    headers: Map<Seq<char>, Seq<u8>>,
) -> Option<HeaderRefusal> {
    if !(headers.contains_key("content-type"@) && headers["content-type"@] == json_media_type()) {
        Some(("request_headers.content-type"@, "protocol must set application/json"@))
    } else if policy.auth.len() > 0 && !(exists|i: int|
        0 <= i < policy.auth.len() && #[trigger] headers.contains_key(policy.auth[i])) {
        Some(
            (
                "request_headers.auth"@,
                "auth layer must set a registered authentication header"@,
            ),
        )
    } else {
        None
    }
}

/// The highest-priority layer whose step left the header present: the last such step.
pub open spec fn last_setter(steps: Seq<HeaderStepView>, name: Seq<char>) -> Option<HeaderSource>
    decreases steps.len(),
{
    if steps.len() == 0 {
        None
    } else if steps.last().0 == name && steps.last().2 {
        Some(steps.last().1)
    } else {
        last_setter(steps.drop_last(), name)
    }
}

/// Resolved per-request headers and private lifecycle observation facts.
pub struct ResolvedHeaders {
    headers: Vec<(String, Vec<u8>)>,
    steps: Vec<(String, HeaderSource, bool, bool, bool)>,
}

/// The views of recorded steps.
pub open spec fn step_views(steps: Seq<(String, HeaderSource, bool, bool, bool)>) -> Seq<
    HeaderStepView,
> {
    steps.map_values(|s: (String, HeaderSource, bool, bool, bool)| (s.0@, s.1, s.2, s.3, s.4))
}

impl View for ResolvedHeaders {
    type V = ResolvedHeadersView;

    closed spec fn view(&self) -> ResolvedHeadersView {
        ResolvedHeadersView { headers: keyed_map(self.headers@), steps: step_views(self.steps@) }
    }
}

impl ResolvedHeaders {
    #[verifier::type_invariant]
    spec fn names_in_order(self) -> bool {
        names_sorted(self.headers@)
    }

    /// Returns final headers for the transport boundary, in name order.
    pub fn headers(&self) -> (r: &[(String, Vec<u8>)])
        ensures
            names_sorted(r@),
            keyed_map(r@) == self@.headers,
    {
        proof {
            use_type_invariant(self);
        }
        self.headers.as_slice()
    }

    /// Returns the final value of a header, if present.
    pub fn get(&self, name: &str) -> (r: Option<&Vec<u8>>)
        ensures
            match r {
                Some(v) => self@.headers.contains_key(name@) && self@.headers[name@] == v@,
                None => !self@.headers.contains_key(name@),
            },
    {
        proof {
            use_type_invariant(self);
        }
        match name_position(&self.headers, name) {
            Ok(i) => {
                proof {
                    crate::keyed::lemma_keyed_entry(self.headers@, i as int);
                }
                Some(&self.headers[i].1)
            },
            Err(p) => {
                proof {
                    crate::keyed::lemma_keyed_absent(self.headers@, p as int, name@);
                }
                None
            },
        }
    }

    /// Returns whether a header is present.
    pub fn contains(&self, name: &str) -> (r: bool)
        ensures
            r == self@.headers.contains_key(name@),
    {
        self.get(name).is_some()
    }

    /// Consumes the result into transport headers and value-free lifecycle facts.
    pub fn into_parts(self) -> (r: (Vec<(String, Vec<u8>)>, Vec<(String, HeaderSource, bool, bool, bool)>))
        ensures
            names_sorted(r.0@),
            keyed_map(r.0@) == self@.headers,
            step_views(r.1@) == self@.steps,
    {
        proof {
            use_type_invariant(&self);
        }
        let ResolvedHeaders { headers, steps } = self;
        (headers, steps)
    }

    /// Returns the highest-priority source that set a final header.
    pub fn final_source(&self, name: &str) -> (r: Option<HeaderSource>)
        ensures
            r == (if self@.headers.contains_key(name@) {
                last_setter(self@.steps, name@)
            } else {
                None
            }),
    {
        proof {
            use_type_invariant(self);
        }
        match name_position(&self.headers, name) {
            Err(p) => {
                proof {
                    crate::keyed::lemma_keyed_absent(self.headers@, p as int, name@);
                }
                return None;
            },
            Ok(i) => {
                proof {
                    crate::keyed::lemma_keyed_entry(self.headers@, i as int);
                }
            },
        }
        let ghost all = step_views(self.steps@);
        proof {
            assert(all.take(self.steps@.len() as int) =~= all);
        }
        let mut k: usize = self.steps.len();
        while k > 0
            invariant
                k <= self.steps@.len(),
                all == step_views(self.steps@),
                self@.headers.contains_key(name@),
                last_setter(all, name@) == last_setter(all.take(k as int), name@),
            decreases k,
        {
            let step = &self.steps[k - 1];
            proof {
                assert(all.take(k as int).drop_last() =~= all.take(k - 1));
                assert(all.take(k as int).last() == all[k - 1]);
            }
            proof {
                assert(all[k - 1] == (step.0@, step.1, step.2, step.3, step.4));
            }
            if str_eq(step.0.as_str(), name) && step.2 {
                return Some(step.1);
            }
            k = k - 1;
        }
        proof {
            assert(all.take(0) =~= Seq::<HeaderStepView>::empty());
        }
        None
    }
}

/// A refused resolution as the error it is reported as.
pub open spec fn refused_as(e: LlmError, refusal: HeaderRefusal) -> bool {
    is_validation(e, refusal.0, ValidationReason::ProtectedHeader, refusal.1)
}

/// What resolving `layers` under `policy` gives, with the final checks.
pub open spec fn pipeline_resolution(
    policy: HeaderPolicyView,
    layers: Seq<(HeaderSource, Seq<HeaderOperationView>)>,
) -> Result<ResolvedHeadersView, HeaderRefusal> {
    match layers_resolution(policy, layers) {
        Err(refusal) => Err(refusal),
        Ok(v) => match compatibility_rejection(policy, v.headers) {
            Some(refusal) => Err(refusal),
            None => Ok(v),
        },
    }
}

proof fn lemma_refusal_persists(
    policy: HeaderPolicyView,
    refusal: HeaderRefusal,
    steps: Seq<(HeaderSource, HeaderOperationView)>,
)
    ensures
        apply_operations(policy, Err(refusal), steps) == Err::<ResolvedHeadersView, HeaderRefusal>(
            refusal,
        ),
    decreases steps.len(),
{
    if steps.len() > 0 {
        lemma_refusal_persists(policy, refusal, steps.drop_last());
    }
}

/// Immutable header pipeline that resolves fresh state for every request.
pub struct HeaderPipeline {
    policy: HeaderPolicy,
}

impl View for HeaderPipeline {
    type V = HeaderPolicyView;

    closed spec fn view(&self) -> HeaderPolicyView {
        self.policy@
    }
}

pub(crate) fn media_type_is_json(value: &Vec<u8>) -> (r: bool)
    ensures
        r == (value@ == json_media_type()),
{
    let expected: [u8; 16] = [97, 112, 112, 108, 105, 99, 97, 116, 105, 111, 110, 47, 106, 115, 111, 110];
    assert(expected@ == json_media_type());
    if value.len() != 16 {
        return false;
    }
    let mut i: usize = 0;
    while i < 16
        invariant
            i <= 16,
            value@.len() == 16,
            expected@ == json_media_type(),
            forall|k: int| 0 <= k < i ==> value@[k] == expected@[k],
        decreases 16 - i,
    {
        if value[i] != expected[i] {
            return false;
        }
        i = i + 1;
    }
    assert(value@ =~= json_media_type());
    true
}

impl HeaderPipeline {
    /// Creates the official `OpenAI` header policy.
    pub fn new() -> (r: Self)
        ensures
            r@ == (HeaderPolicyView { auth: seq!["authorization"@], provider: Seq::empty() }),
    {
        HeaderPipeline { policy: HeaderPolicy::new() }
    }

    /// Creates a pipeline using the Auth provider's registered protected headers.
    pub fn with_auth_headers(headers: Vec<String>) -> (r: Self)
        ensures
            r@ == (HeaderPolicyView { auth: texts(headers@), provider: Seq::empty() }),
    {
        HeaderPipeline { policy: HeaderPolicy::with_auth_headers(headers) }
    }

    /// Creates a pipeline with exact Auth and Provider-owned header registrations.
    pub fn with_registered_headers(auth_headers: Vec<String>, provider_headers: Vec<String>) -> (r:
        Self)
        ensures
            r@ == (HeaderPolicyView { auth: texts(auth_headers@), provider: texts(provider_headers@) }),
    {
        HeaderPipeline {
            policy: HeaderPolicy::with_registered_headers(auth_headers, provider_headers),
        }
    }

    /// Returns the pipeline's policy.
    pub fn policy(&self) -> (r: &HeaderPolicy)
        ensures
            r@ == self@,
    {
        &self.policy
    }

    /// Resolves layers by source priority and validates the final protected headers.
    pub fn resolve(&self, layers: Vec<HeaderLayer>) -> (r: Result<ResolvedHeaders, LlmError>)
        ensures
            match pipeline_resolution(self@, layer_views(layers@)) {
                Ok(v) => r matches Ok(h) && h@ == v,
                Err(refusal) => r matches Err(e) && refused_as(e, refusal),
            },
    {
        let resolved = self.resolve_layers(layers)?;
        self.validate_compatibility(&resolved)?;
        Ok(resolved)
    }

    /// Resolves layers by source priority, without requiring an authentication header.
    pub fn resolve_without_auth_assumption(&self, layers: Vec<HeaderLayer>) -> (r: Result<
        ResolvedHeaders,
        LlmError,
    >)
        ensures
            match layers_resolution(self@, layer_views(layers@)) {
                Ok(v) => r matches Ok(h) && h@ == v,
                Err(refusal) => r matches Err(e) && refused_as(e, refusal),
            },
    {
        self.resolve_layers(layers)
    }

    fn validate_operation(&self, source: HeaderSource, name: &str, sensitive: bool) -> (r: Result<
        (),
        LlmError,
    >)
        ensures
            match operation_rejection(self@, source, name@, sensitive) {
                None => r is Ok,
                Some(summary) => r matches Err(e) && refused_as(
                    e,
                    ("request_headers."@ + name@, summary),
                ),
            },
    {
        if self.policy.allows(source, name) {
            if source == HeaderSource::Auth && !sensitive {
                let field = concat(owned("request_headers."), name);
                return Err(
                    validation(
                        field.as_str(),
                        ValidationReason::ProtectedHeader,
                        "authentication headers must be sensitive",
                    ),
                );
            }
            let provider_owned_sensitive = source == HeaderSource::Provider
                && self.policy.is_provider_header(name);
            if source != HeaderSource::Auth && sensitive && !provider_owned_sensitive {
                let field = concat(owned("request_headers."), name);
                return Err(
                    validation(
                        field.as_str(),
                        ValidationReason::ProtectedHeader,
                        "ordinary header layers cannot carry sensitive values",
                    ),
                );
            }
            Ok(())
        } else {
            let field = concat(owned("request_headers."), name);
            Err(
                validation(
                    field.as_str(),
                    ValidationReason::ProtectedHeader,
                    "header is protected for this source",
                ),
            )
        }
    }

    fn validate_compatibility(&self, resolved: &ResolvedHeaders) -> (r: Result<(), LlmError>)
        ensures
            match compatibility_rejection(self@, resolved@.headers) {
                None => r is Ok,
                Some(refusal) => r matches Err(e) && refused_as(e, refusal),
            },
    {
        proof {
            use_type_invariant(resolved);
        }
        let headers = &resolved.headers;
        let json = match name_position(headers, "content-type") {
            Ok(i) => {
                proof {
                    crate::keyed::lemma_keyed_entry(headers@, i as int);
                }
                media_type_is_json(&headers[i].1)
            },
            Err(p) => {
                proof {
                    crate::keyed::lemma_keyed_absent(headers@, p as int, "content-type"@);
                }
                false
            },
        };
        if !json {
            return Err(
                validation(
                    "request_headers.content-type",
                    ValidationReason::ProtectedHeader,
                    "protocol must set application/json",
                ),
            );
        }
        let auth = &self.policy.auth_headers;
        if auth.len() == 0 {
            return Ok(());
        }
        let mut i: usize = 0;
        while i < auth.len()
            invariant
                i <= auth@.len(),
                names_sorted(headers@),
                texts(auth@) == self@.auth,
                keyed_map(headers@) == resolved@.headers,
                keyed_map(headers@).contains_key("content-type"@),
                keyed_map(headers@)["content-type"@] == json_media_type(),
                forall|k: int| 0 <= k < i ==> !(#[trigger] keyed_map(headers@).contains_key(auth@[k]@)),
            decreases auth@.len() - i,
        {
            match name_position(headers, auth[i].as_str()) {
                Ok(j) => {
                    proof {
                        crate::keyed::lemma_keyed_entry(headers@, j as int);
                        assert(texts(auth@)[i as int] == auth@[i as int]@);
                        assert(keyed_map(headers@).contains_key(self@.auth[i as int]));
                    }
                    return Ok(());
                },
                Err(p) => {
                    proof {
                        crate::keyed::lemma_keyed_absent(headers@, p as int, auth@[i as int]@);
                    }
                },
            }
            i = i + 1;
        }
        proof {
            assert forall|k: int| 0 <= k < texts(auth@).len() implies !(#[trigger] keyed_map(
                headers@,
            ).contains_key(texts(auth@)[k])) by {
                assert(texts(auth@)[k] == auth@[k]@);
            }
        }
        Err(
            validation(
                "request_headers.auth",
                ValidationReason::ProtectedHeader,
                "auth layer must set a registered authentication header",
            ),
        )
    }

    fn apply(
        &self,
        headers: &mut Vec<(String, Vec<u8>)>,
        steps: &mut Vec<(String, HeaderSource, bool, bool, bool)>,
        source: HeaderSource,
        op: &HeaderOperation,
    ) -> (r: Result<(), LlmError>)
        requires
            names_sorted(old(headers)@),
        ensures
            names_sorted(final(headers)@),
            match apply_operation(
                self@,
                Ok(
                    ResolvedHeadersView {
                        headers: keyed_map(old(headers)@),
                        steps: step_views(old(steps)@),
                    },
                ),
                (source, op@),
            ) {
                Ok(v) => r is Ok && keyed_map(final(headers)@) == v.headers && step_views(
                    final(steps)@,
                ) == v.steps,
                Err(refusal) => r matches Err(e) && refused_as(e, refusal),
            },
    {
        match op {
            HeaderOperation::Assign { name, value } => {
                let sensitive = value.is_sensitive();
                self.validate_operation(source, name.as_str(), sensitive)?;
                let bytes = copy_bytes(value.value());
                let entry = (name.clone(), bytes);
                match name_position(headers, name.as_str()) {
                    Ok(i) => {
                        proof {
                            lemma_keyed_update(headers@, i as int, entry);
                        }
                        headers.set(i, entry);
                    },
                    Err(p) => {
                        proof {
                            lemma_keyed_insert(headers@, p as int, entry);
                        }
                        headers.insert(p, entry);
                    },
                }
                let protected = self.policy.is_protected(name.as_str());
                let ghost before = step_views(steps@);
                steps.push((name.clone(), source, true, protected, sensitive));
                proof {
                    assert(step_views(steps@) =~= before.push(
                        (name@, source, true, protected, sensitive),
                    ));
                }
                Ok(())
            },
            HeaderOperation::Remove { name } => {
                self.validate_operation(source, name.as_str(), false)?;
                match name_position(headers, name.as_str()) {
                    Ok(i) => {
                        proof {
                            lemma_keyed_remove(headers@, i as int);
                        }
                        headers.remove(i);
                    },
                    Err(p) => {
                        proof {
                            crate::keyed::lemma_keyed_absent(headers@, p as int, name@);
                            assert(keyed_map(headers@).remove(name@) =~= keyed_map(headers@));
                        }
                    },
                }
                let protected = self.policy.is_protected(name.as_str());
                let ghost before = step_views(steps@);
                steps.push((name.clone(), source, false, protected, false));
                proof {
                    assert(step_views(steps@) =~= before.push((name@, source, false, protected, false)));
                }
                Ok(())
            },
        }
    }

    fn resolve_layers(&self, layers: Vec<HeaderLayer>) -> (r: Result<ResolvedHeaders, LlmError>)
        ensures
            match layers_resolution(self@, layer_views(layers@)) {
                Ok(v) => r matches Ok(h) && h@ == v,
                Err(refusal) => r matches Err(e) && refused_as(e, refusal),
            },
    {
        let ghost lv = layer_views(layers@);
        let mut headers: Vec<(String, Vec<u8>)> = Vec::new();
        let mut steps: Vec<(String, HeaderSource, bool, bool, bool)> = Vec::new();
        let mut failure: Option<LlmError> = None;
        let ghost mut done: Seq<(HeaderSource, HeaderOperationView)> = Seq::empty();
        proof {
            assert(keyed_map(headers@) =~= Map::<Seq<char>, Seq<u8>>::empty());
            assert(step_views(steps@) =~= Seq::<HeaderStepView>::empty());
        }
        let mut rank: u8 = 0;
        while rank < 8
            invariant
                rank <= 8,
                lv == layer_views(layers@),
                names_sorted(headers@),
                done == operations_by_priority(lv, rank as nat),
                match apply_operations(self@, Ok(no_headers()), done) {
                    Ok(v) => failure is None && keyed_map(headers@) == v.headers && step_views(
                        steps@,
                    ) == v.steps,
                    Err(refusal) => failure matches Some(e) && refused_as(e, refusal),
                },
            decreases 8 - rank,
        {
            let mut i: usize = 0;
            while i < layers.len()
                invariant
                    rank < 8,
                    i <= layers@.len(),
                    lv == layer_views(layers@),
                    names_sorted(headers@),
                    done == operations_by_priority(lv, rank as nat) + rank_operations(
                        lv.take(i as int),
                        rank as int,
                    ),
                    match apply_operations(self@, Ok(no_headers()), done) {
                        Ok(v) => failure is None && keyed_map(headers@) == v.headers
                            && step_views(steps@) == v.steps,
                        Err(refusal) => failure matches Some(e) && refused_as(e, refusal),
                    },
                decreases layers@.len() - i,
            {
                let layer = &layers[i];
                let ghost start = done;
                proof {
                    assert(lv[i as int] == layer@);
                    assert(lv.take(i + 1).drop_last() =~= lv.take(i as int));
                    assert(lv.take(i + 1).last() == lv[i as int]);
                }
                if layer.source.rank() == rank {
                    let ops = &layer.operations;
                    let mut j: usize = 0;
                    while j < ops.len()
                        invariant
                            j <= ops@.len(),
                            names_sorted(headers@),
                            layer@ == (layer.source, operation_views(ops@)),
                            done == start + layer_operations(layer@).take(j as int),
                            match apply_operations(self@, Ok(no_headers()), done) {
                                Ok(v) => failure is None && keyed_map(headers@) == v.headers
                                    && step_views(steps@) == v.steps,
                                Err(refusal) => failure matches Some(e) && refused_as(e, refusal),
                            },
                        decreases ops@.len() - j,
                    {
                        let ghost step = (layer.source, ops@[j as int]@);
                        proof {
                            assert(layer_operations(layer@)[j as int] == step);
                            assert(layer_operations(layer@).take(j + 1) =~= layer_operations(
                                layer@,
                            ).take(j as int).push(step));
                            assert(start + layer_operations(layer@).take(j + 1) =~= done.push(
                                step,
                            ));
                            assert(done.push(step).drop_last() =~= done);
                        }
                        if failure.is_none() {
                            match self.apply(&mut headers, &mut steps, layer.source, &ops[j]) {
                                Ok(()) => {},
                                Err(e) => {
                                    failure = Some(e);
                                },
                            }
                        }
                        proof {
                            done = done.push(step);
                        }
                        j = j + 1;
                    }
                    proof {
                        assert(layer_operations(layer@).take(ops@.len() as int) =~= layer_operations(
                            layer@,
                        ));
                        assert(rank_operations(lv.take(i + 1), rank as int) == rank_operations(
                            lv.take(i as int),
                            rank as int,
                        ) + layer_operations(layer@));
                        assert(done =~= operations_by_priority(lv, rank as nat) + rank_operations(
                            lv.take(i + 1),
                            rank as int,
                        ));
                    }
                } else {
                    proof {
                        assert(rank_operations(lv.take(i + 1), rank as int) == rank_operations(
                            lv.take(i as int),
                            rank as int,
                        ));
                    }
                }
                i = i + 1;
            }
            proof {
                assert(lv.take(layers@.len() as int) =~= lv);
                assert(operations_by_priority(lv, (rank + 1) as nat) == operations_by_priority(
                    lv,
                    rank as nat,
                ) + rank_operations(lv, rank as int));
            }
            rank = rank + 1;
        }
        match failure {
            Some(e) => Err(e),
            None => Ok(ResolvedHeaders { headers, steps }),
        }
    }
}

/// A recorded step obeys the policy: its layer was allowed to write the header, only Auth
/// and Provider-owned headers carry sensitive values, and Auth writes only sensitive values.
pub open spec fn step_respects(policy: HeaderPolicyView, step: HeaderStepView) -> bool {
    &&& header_allowed(policy, step.1, step.0)
    &&& step.4 ==> (step.1 == HeaderSource::Auth || (step.1 == HeaderSource::Provider
        && policy.provider.contains(step.0)))
    &&& (step.1 == HeaderSource::Auth && step.2) ==> step.4
}

/// Every step obeys the policy, and every final header was last written by a layer the
/// policy allows to write it.
pub open spec fn resolution_respects(policy: HeaderPolicyView, v: ResolvedHeadersView) -> bool {
    &&& forall|i: int| 0 <= i < v.steps.len() ==> step_respects(policy, #[trigger] v.steps[i])
    &&& forall|name: Seq<char>| #[trigger]
        v.headers.contains_key(name) ==> (last_setter(v.steps, name) matches Some(s)
            && header_allowed(policy, s, name))
}

proof fn lemma_operations_respect_policy(
    policy: HeaderPolicyView,
    ops: Seq<(HeaderSource, HeaderOperationView)>,
)
    ensures
        apply_operations(policy, Ok(no_headers()), ops) matches Ok(v) ==> resolution_respects(
            policy,
            v,
        ),
    decreases ops.len(),
{
    if ops.len() > 0 {
        let prev = apply_operations(policy, Ok(no_headers()), ops.drop_last());
        lemma_operations_respect_policy(policy, ops.drop_last());
        if let Ok(u) = prev {
            if let Ok(v) = apply_operations(policy, Ok(no_headers()), ops) {
                let (source, op) = ops.last();
                let name = operation_name(op);
                assert(v.steps.drop_last() =~= u.steps);
                assert forall|i: int| 0 <= i < v.steps.len() implies step_respects(
                    policy,
                    #[trigger] v.steps[i],
                ) by {
                    if i < u.steps.len() {
                        assert(v.steps[i] == u.steps[i]);
                    }
                }
                assert forall|n: Seq<char>| #[trigger] v.headers.contains_key(n) implies (last_setter(
                    v.steps,
                    n,
                ) matches Some(s) && header_allowed(policy, s, n)) by {
                    if n != name {
                        assert(u.headers.contains_key(n));
                    }
                }
            }
        }
    }
}

/// Whatever layers are resolved under whatever policy, a successful resolution obeys the
/// policy: no layer wrote a header it does not own, only Auth and Provider-owned headers
/// carry sensitive values, and every final header was last written by a layer allowed to
/// write it; a header registered to Auth (other than the three that the protocol and the
/// client identity own) is always finally written by Auth.
pub proof fn lemma_resolution_respects_policy(
    policy: HeaderPolicyView,
    layers: Seq<(HeaderSource, Seq<HeaderOperationView>)>,
)
    ensures
        layers_resolution(policy, layers) matches Ok(v) ==> {
            &&& resolution_respects(policy, v)
            &&& forall|name: Seq<char>|
                #![trigger v.headers.contains_key(name), policy.auth.contains(name)]
                policy.auth.contains(name) && v.headers.contains_key(name) && name
                    != "content-type"@ && name != "accept"@ && name != "user-agent"@
                    ==> last_setter(v.steps, name) == Some(HeaderSource::Auth)
        },
{
    lemma_operations_respect_policy(policy, ordered_operations(layers));
}

/// The model, dynamic-policy and request layers can never write a header the policy
/// protects, whatever the policy registers.
pub proof fn lemma_ordinary_layers_cannot_write_protected(
    policy: HeaderPolicyView,
    source: HeaderSource,
    name: Seq<char>,
)
    requires
        source == HeaderSource::Model || source == HeaderSource::DynamicPolicy || source
            == HeaderSource::Request,
        policy_protects(policy, name),
    ensures
        !header_allowed(policy, source, name),
        operation_rejection(policy, source, name, false) is Some,
        operation_rejection(policy, source, name, true) is Some,
{
}

impl Default for HeaderPipeline {
    fn default() -> (r: Self)
        ensures
            r@ == (HeaderPolicyView { auth: seq!["authorization"@], provider: Seq::empty() }),
    {
        Self::new()
    }
}

} // verus!
