//! Provider registration metadata and its normalization rules.

use vstd::prelude::*;

use crate::domain::{identifier_rejection, ProtocolId, ProviderId};
use crate::error::{is_configuration, LlmError, ProviderRegistryError, ProviderRegistryFailure};
use crate::provider::catalog::ProductId;
use crate::provider::definition::{DefinitionView, ProviderDefinition};
use crate::text::{
    all_chars_in, all_in_set, ascii_lowercase, boundary_whitespace, has_boundary_whitespace, in_set,
    lemma_seq_lt_irreflexive, lemma_seq_lt_total, lemma_seq_lt_transitive, seq_lt, str_eq, str_lt,
    to_ascii_lowercase, trim, trim_ws, utf8_len, utf8_len_exceeds, CharSet,
};

verus! {

/// A normalized provider identifier: 1 to 128 bytes of lower-case ASCII letters, digits
/// and `. _ / -`, starting and ending with a letter or digit.
pub open spec fn normalized_id_ok(id: Seq<char>) -> bool {
    &&& id.len() > 0
    &&& utf8_len(id) <= 128
    &&& all_in_set(id, CharSet::NormalizedProviderId)
    &&& in_set(id[0], CharSet::AsciiAlnum)
    &&& in_set(id.last(), CharSet::AsciiAlnum)
}

/// `e` is the registration error with `failure`, optional provider and `summary`.
pub open spec fn registry_error_is(
    e: ProviderRegistryError,
    failure: ProviderRegistryFailure,
    provider: Option<Seq<char>>,
    summary: Seq<char>,
) -> bool {
    e.spec_failure() == failure && e.spec_provider_id() == provider && e.spec_summary() == summary
}

/// `r` answers normalizing `value` into a provider identifier: trimmed and lower-cased.
pub open spec fn normalized_provider_checked(
    value: Seq<char>,
    r: Result<ProviderId, ProviderRegistryError>,
) -> bool {
    let normalized = ascii_lowercase(trim_ws(value));
    if !normalized_id_ok(normalized) {
        r matches Err(e) && registry_error_is(
            e,
            ProviderRegistryFailure::InvalidProviderId,
            None,
            "provider ID must be bounded lowercase ASCII with controlled separators"@,
        )
    } else if identifier_rejection(normalized) is Some {
        r matches Err(e) && registry_error_is(
            e,
            ProviderRegistryFailure::InvalidProviderId,
            None,
            "provider ID failed domain validation"@,
        )
    } else {
        r matches Ok(id) && id@ == normalized
    }
}

/// Trims and lower-cases a provider identifier for registration.
pub fn normalize_provider_id(value: &str) -> (r: Result<ProviderId, ProviderRegistryError>)
    ensures
        normalized_provider_checked(value@, r),
{
    let trimmed = trim(value);
    let normalized = to_ascii_lowercase(trimmed.as_str());
    let n = normalized.as_str();
    let count = n.unicode_len();
    let valid = count > 0 && !utf8_len_exceeds(n, 128) && all_chars_in(
        n,
        CharSet::NormalizedProviderId,
    ) && crate::text::char_in_set(n.get_char(0), CharSet::AsciiAlnum) && crate::text::char_in_set(
        n.get_char(count - 1),
        CharSet::AsciiAlnum,
    );
    if !valid {
        return Err(
            ProviderRegistryError::new(
                ProviderRegistryFailure::InvalidProviderId,
                None,
                "provider ID must be bounded lowercase ASCII with controlled separators",
            ),
        );
    }
    match ProviderId::new(n) {
        Ok(id) => Ok(id),
        Err(_) => Err(
            ProviderRegistryError::new(
                ProviderRegistryFailure::InvalidProviderId,
                None,
                "provider ID failed domain validation",
            ),
        ),
    }
}

/// A registration version: 1 to 64 bytes of ASCII letters, digits and `. - _ +`, with no
/// boundary white space.
pub open spec fn version_ok(version: Seq<char>) -> bool {
    &&& version.len() > 0
    &&& utf8_len(version) <= 64
    &&& !has_boundary_whitespace(version)
    &&& all_in_set(version, CharSet::Version)
}

/// Checks a registration version for `provider_id`.
pub fn validate_version(version: &str, provider_id: &ProviderId) -> (r: Result<
    String,
    ProviderRegistryError,
>)
    ensures
        version_ok(version@) ==> (r matches Ok(v) && v@ == version@),
        !version_ok(version@) ==> (r matches Err(e) && registry_error_is(
            e,
            ProviderRegistryFailure::InvalidVersion,
            Some(provider_id@),
            "registration version must be non-empty bounded ASCII"@,
        )),
{
    let valid = version.unicode_len() > 0 && !utf8_len_exceeds(version, 64) && !boundary_whitespace(
        version,
    ) && all_chars_in(version, CharSet::Version);
    if valid {
        Ok(version.to_owned())
    } else {
        Err(
            ProviderRegistryError::new(
                ProviderRegistryFailure::InvalidVersion,
                Some(provider_id.as_str()),
                "registration version must be non-empty bounded ASCII",
            ),
        )
    }
}

/// Mathematical form of [`ProviderRegistrationMetadata`].
pub struct RegistrationView {
    pub provider_id: Seq<char>,
    pub product_id: Option<Seq<char>>,
    pub protocol_id: Option<Seq<char>>,
    pub version: Seq<char>,
}

/// Value-free metadata describing one registered provider factory.
#[derive(Debug)]
pub struct ProviderRegistrationMetadata {
    provider_id: ProviderId,
    product_id: Option<ProductId>,
    protocol_id: Option<ProtocolId>,
    version: String,
}

impl View for ProviderRegistrationMetadata {
    type V = RegistrationView;

    closed spec fn view(&self) -> RegistrationView {
        RegistrationView {
            provider_id: self.provider_id@,
            product_id: match self.product_id {
                Some(p) => Some(p@),
                None => None,
            },
            protocol_id: match self.protocol_id {
                Some(p) => Some(p@),
                None => None,
            },
            version: self.version@,
        }
    }
}

impl ProviderRegistrationMetadata {
    /// Builds registration metadata: normalizes the provider identifier, then checks the
    /// version.
    pub fn from_parts(
        provider_id: &str,
        product_id: Option<ProductId>,
        protocol_id: Option<ProtocolId>,
        version: &str,
    ) -> (r: Result<Self, ProviderRegistryError>)
        ensures
            ({
                let normalized = ascii_lowercase(trim_ws(provider_id@));
                if !normalized_id_ok(normalized) || identifier_rejection(normalized) is Some {
                    r is Err && r->Err_0.spec_failure() == ProviderRegistryFailure::InvalidProviderId
                } else if !version_ok(version@) {
                    r matches Err(e) && registry_error_is(
                        e,
                        ProviderRegistryFailure::InvalidVersion,
                        Some(normalized),
                        "registration version must be non-empty bounded ASCII"@,
                    )
                } else {
                    r matches Ok(m) && m@ == (RegistrationView {
                        provider_id: normalized,
                        product_id: match product_id {
                            Some(p) => Some(p@),
                            None => None,
                        },
                        protocol_id: match protocol_id {
                            Some(p) => Some(p@),
                            None => None,
                        },
                        version: version@,
                    })
                }
            }),
    {
        let provider_id = normalize_provider_id(provider_id)?;
        let version = validate_version(version, &provider_id)?;
        Ok(ProviderRegistrationMetadata { provider_id, product_id, protocol_id, version })
    }

    /// Returns the normalized provider identifier.
    pub fn provider_id(&self) -> (r: &ProviderId)
        ensures
            r@ == self@.provider_id,
    {
        &self.provider_id
    }

    /// Returns the product identity for a static definition registration.
    pub fn product_id(&self) -> (r: Option<&ProductId>)
        ensures
            match r {
                Some(p) => self@.product_id == Some(p@),
                None => self@.product_id is None,
            },
    {
        match &self.product_id {
            Some(p) => Some(p),
            None => None,
        }
    }

    /// Returns the protocol identity for a static definition registration.
    pub fn protocol_id(&self) -> (r: Option<&ProtocolId>)
        ensures
            match r {
                Some(p) => self@.protocol_id == Some(p@),
                None => self@.protocol_id is None,
            },
    {
        match &self.protocol_id {
            Some(p) => Some(p),
            None => None,
        }
    }

    /// Returns the registration implementation version.
    pub fn version(&self) -> (r: &str)
        ensures
            r@ == self@.version,
    {
        self.version.as_str()
    }
}

impl Clone for ProviderRegistrationMetadata {
    fn clone(&self) -> (r: Self)
        ensures
            r@ == self@,
    {
        ProviderRegistrationMetadata {
            provider_id: self.provider_id.clone(),
            product_id: match &self.product_id {
                Some(p) => Some(p.clone()),
                None => None,
            },
            protocol_id: match &self.protocol_id {
                Some(p) => Some(p.clone()),
                None => None,
            },
            version: self.version.clone(),
        }
    }
}

/// The key a registration is stored under: its provider, then its product, if any.
pub type RegistrationKey = (Seq<char>, Option<Seq<char>>);

/// The key of registration metadata.
pub open spec fn key_of(m: RegistrationView) -> RegistrationKey {
    (m.provider_id, m.product_id)
}

/// The order of optional products: no product first, then products by text.
pub open spec fn product_lt(a: Option<Seq<char>>, b: Option<Seq<char>>) -> bool {
    match (a, b) {
        (None, Some(_)) => true,
        (Some(x), Some(y)) => seq_lt(x, y),
        _ => false,
    }
}

/// The order of registration keys: by provider, then by product.
pub open spec fn key_lt(a: RegistrationKey, b: RegistrationKey) -> bool {
    seq_lt(a.0, b.0) || (a.0 == b.0 && product_lt(a.1, b.1))
}

/// The key order is a strict total order.
pub proof fn lemma_key_order(a: RegistrationKey, b: RegistrationKey, c: RegistrationKey)
    ensures
        !key_lt(a, a),
        a != b ==> key_lt(a, b) || key_lt(b, a),
        !(key_lt(a, b) && key_lt(b, a)),
        key_lt(a, b) && key_lt(b, c) ==> key_lt(a, c),
{
    lemma_seq_lt_irreflexive(a.0);
    lemma_seq_lt_total(a.0, b.0);
    if let Some(x) = a.1 {
        lemma_seq_lt_irreflexive(x);
        if let Some(y) = b.1 {
            lemma_seq_lt_total(x, y);
            if let Some(z) = c.1 {
                if seq_lt(x, y) && seq_lt(y, z) {
                    lemma_seq_lt_transitive(x, y, z);
                }
            }
        }
    }
    if seq_lt(a.0, b.0) && seq_lt(b.0, c.0) {
        lemma_seq_lt_transitive(a.0, b.0, c.0);
    }
}

/// The view of an optional text.
pub open spec fn opt_text(t: Option<&str>) -> Option<Seq<char>> {
    match t {
        Some(s) => Some(s@),
        None => None,
    }
}

impl ProviderRegistrationMetadata {
    /// Whether this metadata's key orders before `(provider, product)`, and whether it
    /// equals it.
    fn compare_key(&self, provider: &str, product: Option<&str>) -> (r: (bool, bool))
        ensures
            r.0 == key_lt(key_of(self@), (provider@, opt_text(product))),
            r.1 == (key_of(self@) == (provider@, opt_text(product))),
    {
        proof {
            lemma_seq_lt_irreflexive(provider@);
        }
        let mine = self.provider_id.as_str();
        if str_lt(mine, provider) {
            return (true, false);
        }
        if !str_eq(mine, provider) {
            return (false, false);
        }
        match (&self.product_id, product) {
            (None, None) => (false, true),
            (None, Some(_)) => (true, false),
            (Some(_), None) => (false, false),
            (Some(x), Some(y)) => (str_lt(x.as_str(), y), str_eq(x.as_str(), y)),
        }
    }
}

/// Mathematical form of a [`ProviderRegistration`].
pub struct RegisteredView {
    pub metadata: RegistrationView,
    pub definition: DefinitionView,
}

/// One immutable provider definition registration.
pub struct ProviderRegistration {
    metadata: ProviderRegistrationMetadata,
    definition: ProviderDefinition,
}

impl View for ProviderRegistration {
    type V = RegisteredView;

    closed spec fn view(&self) -> RegisteredView {
        RegisteredView { metadata: self.metadata@, definition: self.definition@ }
    }
}

impl ProviderRegistration {
    /// Creates a static registration from a validated definition: the provider identifier
    /// is normalized and the current configuration schema version recorded.
    pub fn from_definition(definition: ProviderDefinition) -> (r: Result<Self, ProviderRegistryError>)
        ensures
            ({
                let normalized = ascii_lowercase(trim_ws(definition@.provider_id));
                if !normalized_id_ok(normalized) || identifier_rejection(normalized) is Some {
                    r is Err && r->Err_0.spec_failure() == ProviderRegistryFailure::InvalidProviderId
                } else if !version_ok(crate::PROVIDER_CONFIG_SCHEMA_VERSION@) {
                    r is Err && r->Err_0.spec_failure() == ProviderRegistryFailure::InvalidVersion
                } else {
                    r matches Ok(reg) && reg@ == (RegisteredView {
                        metadata: RegistrationView {
                            provider_id: normalized,
                            product_id: Some(definition@.product_id),
                            protocol_id: Some(definition@.protocol_id),
                            version: crate::PROVIDER_CONFIG_SCHEMA_VERSION@,
                        },
                        definition: definition@,
                    })
                }
            }),
    {
        let metadata = ProviderRegistrationMetadata::from_parts(
            definition.provider_id().as_str(),
            Some(definition.product_id().clone()),
            Some(definition.protocol_id().clone()),
            crate::PROVIDER_CONFIG_SCHEMA_VERSION,
        )?;
        Ok(ProviderRegistration { metadata, definition })
    }

    /// Returns value-free registration metadata.
    pub fn metadata(&self) -> (r: &ProviderRegistrationMetadata)
        ensures
            r@ == self@.metadata,
    {
        &self.metadata
    }

    /// Returns the registered definition.
    pub fn definition(&self) -> (r: &ProviderDefinition)
        ensures
            r@ == self@.definition,
    {
        &self.definition
    }
}

/// Keys strictly increase along `entries`.
pub open spec fn keys_sorted(entries: Seq<RegisteredView>) -> bool {
    forall|i: int, j: int|
        0 <= i < j < entries.len() ==> key_lt(
            key_of(#[trigger] entries[i].metadata),
            key_of(#[trigger] entries[j].metadata),
        )
}

/// `entries[i]` is stored under `key`.
pub open spec fn key_at(entries: Seq<RegisteredView>, i: int, key: RegistrationKey) -> bool {
    0 <= i < entries.len() && key_of(entries[i].metadata) == key
}

/// The metadata stored under `key`, if any.
pub open spec fn lookup_key(entries: Seq<RegisteredView>, key: RegistrationKey) -> Option<
    RegistrationView,
> {
    if exists|i: int| key_at(entries, i, key) {
        Some(entries[choose|i: int| key_at(entries, i, key)].metadata)
    } else {
        None
    }
}

/// `e` is a registration of provider `p`; with `static_only`, one of a static product.
pub open spec fn provider_match(e: RegisteredView, p: Seq<char>, static_only: bool) -> bool {
    e.metadata.provider_id == p && (static_only ==> e.metadata.product_id is Some)
}

/// `entries[i]` is the one registration matching `p`.
pub open spec fn unique_at(entries: Seq<RegisteredView>, p: Seq<char>, static_only: bool, i: int) -> bool {
    &&& 0 <= i < entries.len()
    &&& provider_match(entries[i], p, static_only)
    &&& forall|j: int|
        0 <= j < entries.len() && j != i ==> !provider_match(#[trigger] entries[j], p, static_only)
}

/// No registration matches `p`.
pub open spec fn none_match(entries: Seq<RegisteredView>, p: Seq<char>, static_only: bool) -> bool {
    forall|i: int| 0 <= i < entries.len() ==> !provider_match(#[trigger] entries[i], p, static_only)
}

/// What looking a provider up by identifier alone finds: the registration without a
/// product, else the provider's only registration, else nothing.
pub open spec fn lookup_provider(entries: Seq<RegisteredView>, p: Seq<char>) -> Option<
    RegistrationView,
> {
    if exists|i: int| key_at(entries, i, (p, None)) {
        lookup_key(entries, (p, None))
    } else if exists|i: int| unique_at(entries, p, false, i) {
        Some(entries[choose|i: int| unique_at(entries, p, false, i)].metadata)
    } else {
        None
    }
}

/// The view of optional metadata.
pub open spec fn opt_metadata(m: Option<ProviderRegistrationMetadata>) -> Option<RegistrationView> {
    match m {
        Some(m) => Some(m@),
        None => None,
    }
}

/// How many registrations match a provider.
enum ProviderMatch {
    Absent,
    Unique(usize),
    Several,
}

/// Startup-time registry of provider definitions, kept in key order.
pub struct ProviderRegistry {
    registrations: Vec<ProviderRegistration>,
}

impl View for ProviderRegistry {
    type V = Seq<RegisteredView>;

    closed spec fn view(&self) -> Seq<RegisteredView> {
        self.registrations@.map_values(|r: ProviderRegistration| r@)
    }
}

/// Inserting a registration with a new key at its sorted position keeps keys sorted.
proof fn lemma_insert_sorted(entries: Seq<RegisteredView>, p: int, e: RegisteredView)
    requires
        keys_sorted(entries),
        0 <= p <= entries.len(),
        forall|m: int| 0 <= m < p ==> key_lt(key_of(#[trigger] entries[m].metadata), key_of(e.metadata)),
        p < entries.len() ==> key_lt(key_of(e.metadata), key_of(entries[p].metadata)),
    ensures
        keys_sorted(entries.insert(p, e)),
{
    let after = entries.insert(p, e);
    assert forall|i: int, j: int| 0 <= i < j < after.len() implies key_lt(
        key_of(#[trigger] after[i].metadata),
        key_of(#[trigger] after[j].metadata),
    ) by {
        if i == p && j > p + 1 {
            assert(key_lt(key_of(entries[p].metadata), key_of(entries[j - 1].metadata)));
            lemma_key_order(key_of(e.metadata), key_of(entries[p].metadata), key_of(entries[j - 1].metadata));
        } else if i < p && j > p {
            assert(key_lt(key_of(entries[i].metadata), key_of(entries[j - 1].metadata)));
        } else if i > p {
            assert(key_lt(key_of(entries[i - 1].metadata), key_of(entries[j - 1].metadata)));
        } else if j < p {
            assert(key_lt(key_of(entries[i].metadata), key_of(entries[j].metadata)));
        }
    }
}

/// Removing a registration keeps keys sorted.
proof fn lemma_remove_sorted(entries: Seq<RegisteredView>, p: int)
    requires
        keys_sorted(entries),
        0 <= p < entries.len(),
    ensures
        keys_sorted(entries.remove(p)),
{
    let after = entries.remove(p);
    assert forall|i: int, j: int| 0 <= i < j < after.len() implies key_lt(
        key_of(#[trigger] after[i].metadata),
        key_of(#[trigger] after[j].metadata),
    ) by {
        let a = if i < p { i } else { i + 1 };
        let b = if j < p { j } else { j + 1 };
        assert(after[i] == entries[a]);
        assert(after[j] == entries[b]);
        assert(key_lt(key_of(entries[a].metadata), key_of(entries[b].metadata)));
    }
}

/// In sorted entries a key is stored at most once.
proof fn lemma_key_unique(entries: Seq<RegisteredView>, i: int, j: int)
    requires
        keys_sorted(entries),
        0 <= i < entries.len(),
        0 <= j < entries.len(),
        key_of(entries[i].metadata) == key_of(entries[j].metadata),
    ensures
        i == j,
{
    lemma_key_order(key_of(entries[i].metadata), key_of(entries[i].metadata), key_of(entries[i].metadata));
    if i < j {
        assert(key_lt(key_of(entries[i].metadata), key_of(entries[j].metadata)));
    } else if j < i {
        assert(key_lt(key_of(entries[j].metadata), key_of(entries[i].metadata)));
    }
}

/// The provider and optional product text of metadata.
fn key_parts(m: &ProviderRegistrationMetadata) -> (r: (&str, Option<&str>))
    ensures
        (r.0@, opt_text(r.1)) == key_of(m@),
{
    let product = match &m.product_id {
        Some(p) => Some(p.as_str()),
        None => None,
    };
    (m.provider_id.as_str(), product)
}

impl ProviderRegistry {
    #[verifier::type_invariant]
    spec fn sorted(self) -> bool {
        keys_sorted(self@)
    }

    /// Creates an empty registry.
    pub fn new() -> (r: Self)
        ensures
            r@ == Seq::<RegisteredView>::empty(),
    {
        let r = ProviderRegistry { registrations: Vec::new() };
        assert(r@ =~= Seq::<RegisteredView>::empty());
        r
    }

    /// Finds where `(provider, product)` is or would be stored.
    fn locate(&self, provider: &str, product: Option<&str>) -> (r: (bool, usize))
        ensures
            r.1 <= self@.len(),
            forall|m: int|
                0 <= m < r.1 ==> key_lt(
                    key_of(#[trigger] self@[m].metadata),
                    (provider@, opt_text(product)),
                ),
            r.0 ==> r.1 < self@.len() && key_of(self@[r.1 as int].metadata) == (
                provider@,
                opt_text(product),
            ),
            !r.0 ==> (r.1 < self@.len() ==> key_lt(
                (provider@, opt_text(product)),
                key_of(self@[r.1 as int].metadata),
            )),
    {
        let n = self.registrations.len();
        let mut i: usize = 0;
        while i < n
            invariant
                n == self@.len(),
                n == self.registrations@.len(),
                i <= n,
                forall|m: int|
                    0 <= m < i ==> key_lt(
                        key_of(#[trigger] self@[m].metadata),
                        (provider@, opt_text(product)),
                    ),
            decreases n - i,
        {
            assert(self@[i as int] == self.registrations@[i as int]@);
            let (lt, eq) = self.registrations[i].metadata.compare_key(provider, product);
            if eq {
                return (true, i);
            }
            if !lt {
                proof {
                    lemma_key_order(
                        key_of(self@[i as int].metadata),
                        (provider@, opt_text(product)),
                        (provider@, opt_text(product)),
                    );
                }
                return (false, i);
            }
            i = i + 1;
        }
        (false, n)
    }

    /// Finds how many registrations match provider `p`.
    fn find_matches(&self, p: &str, static_only: bool) -> (r: ProviderMatch)
        ensures
            r is Absent ==> none_match(self@, p@, static_only),
            r matches ProviderMatch::Unique(i) ==> unique_at(self@, p@, static_only, i as int),
            r is Several ==> !none_match(self@, p@, static_only) && forall|i: int|
                !unique_at(self@, p@, static_only, i),
    {
        let n = self.registrations.len();
        let mut first: Option<usize> = None;
        let mut i: usize = 0;
        while i < n
            invariant
                n == self@.len(),
                n == self.registrations@.len(),
                i <= n,
                first is None ==> forall|j: int|
                    0 <= j < i ==> !provider_match(#[trigger] self@[j], p@, static_only),
                first matches Some(f) ==> f < i && provider_match(self@[f as int], p@, static_only)
                    && forall|j: int|
                    0 <= j < i && j != f ==> !provider_match(#[trigger] self@[j], p@, static_only),
            decreases n - i,
        {
            assert(self@[i as int] == self.registrations@[i as int]@);
            let m = &self.registrations[i].metadata;
            let matched = str_eq(m.provider_id.as_str(), p) && (!static_only
                || m.product_id.is_some());
            if matched {
                match first {
                    Some(f) => {
                        proof {
                            assert(provider_match(self@[i as int], p@, static_only));
                            assert forall|k: int| !unique_at(self@, p@, static_only, k) by {
                                if unique_at(self@, p@, static_only, k) {
                                    if k != f as int {
                                        assert(provider_match(self@[f as int], p@, static_only));
                                    } else {
                                        assert(provider_match(self@[i as int], p@, static_only));
                                    }
                                }
                            }
                        }
                        return ProviderMatch::Several;
                    },
                    None => {
                        first = Some(i);
                    },
                }
            }
            i = i + 1;
        }
        match first {
            Some(f) => ProviderMatch::Unique(f),
            None => ProviderMatch::Absent,
        }
    }

    /// Registers a definition, refusing one whose key is already registered.
    pub fn register(&mut self, registration: ProviderRegistration) -> (r: Result<
        ProviderRegistrationMetadata,
        ProviderRegistryError,
    >)
        ensures
            keys_sorted(final(self)@),
            (exists|i: int| key_at(old(self)@, i, key_of(registration@.metadata))) ==> (r matches Err(
                e,
            ) && registry_error_is(
                e,
                ProviderRegistryFailure::DuplicateRegistration,
                Some(registration@.metadata.provider_id),
                "provider ID is already registered; use explicit replace"@,
            ) && final(self)@ == old(self)@),
            !(exists|i: int| key_at(old(self)@, i, key_of(registration@.metadata))) ==> (r matches Ok(
                m,
            ) && m@ == registration@.metadata && exists|p: int|
                0 <= p <= old(self)@.len() && final(self)@ == old(self)@.insert(p, registration@)),
    {
        proof {
            use_type_invariant(&*self);
        }
        let metadata = registration.metadata.clone();
        let (provider, product) = key_parts(&metadata);
        let (found, pos) = self.locate(provider, product);
        if found {
            assert(key_at(self@, pos as int, key_of(registration@.metadata)));
            return Err(
                ProviderRegistryError::new(
                    ProviderRegistryFailure::DuplicateRegistration,
                    Some(provider),
                    "provider ID is already registered; use explicit replace",
                ),
            );
        }
        let ghost before = self@;
        let ghost key = key_of(registration@.metadata);
        proof {
            lemma_key_order(key, key, key);
            assert forall|j: int| 0 <= j < before.len() implies !key_at(before, j, key) by {
                if j >= pos {
                    if j > pos {
                        assert(key_lt(key_of(before[pos as int].metadata), key_of(before[j].metadata)));
                        lemma_key_order(key, key_of(before[pos as int].metadata), key_of(before[j].metadata));
                    }
                } else {
                    assert(key_lt(key_of(before[j].metadata), key));
                }
            }
            lemma_insert_sorted(before, pos as int, registration@);
        }
        let mut registrations: Vec<ProviderRegistration> = Vec::new();
        std::mem::swap(&mut registrations, &mut self.registrations);
        let ghost view = registration@;
        registrations.insert(pos, registration);
        proof {
            assert(registrations@.map_values(|r: ProviderRegistration| r@) =~= before.insert(
                pos as int,
                view,
            ));
        }
        self.registrations = registrations;
        assert(self@ == before.insert(pos as int, view));
        Ok(metadata)
    }

    /// Replaces an existing registration, returning the metadata it replaced.
    pub fn replace(&mut self, registration: ProviderRegistration) -> (r: Result<
        ProviderRegistrationMetadata,
        ProviderRegistryError,
    >)
        ensures
            keys_sorted(final(self)@),
            match lookup_key(old(self)@, key_of(registration@.metadata)) {
                None => r matches Err(e) && registry_error_is(
                    e,
                    ProviderRegistryFailure::RegistrationNotFound,
                    Some(registration@.metadata.provider_id),
                    "provider must be registered before it can be replaced"@,
                ) && final(self)@ == old(self)@,
                Some(previous) => r matches Ok(m) && m@ == previous && exists|i: int|
                    key_at(old(self)@, i, key_of(registration@.metadata)) && final(self)@
                        == old(self)@.update(i, registration@),
            },
    {
        proof {
            use_type_invariant(&*self);
        }
        let (provider, product) = key_parts(&registration.metadata);
        let (found, pos) = self.locate(provider, product);
        let ghost before = self@;
        let ghost key = key_of(registration@.metadata);
        if !found {
            proof {
                lemma_key_order(key, key, key);
                assert forall|j: int| 0 <= j < before.len() implies !key_at(before, j, key) by {
                    if j > pos {
                        assert(key_lt(key_of(before[pos as int].metadata), key_of(before[j].metadata)));
                        lemma_key_order(key, key_of(before[pos as int].metadata), key_of(before[j].metadata));
                    } else if j < pos {
                        assert(key_lt(key_of(before[j].metadata), key));
                    }
                }
            }
            return Err(
                ProviderRegistryError::new(
                    ProviderRegistryFailure::RegistrationNotFound,
                    Some(provider),
                    "provider must be registered before it can be replaced",
                ),
            );
        }
        proof {
            assert(key_at(before, pos as int, key));
            let c = choose|i: int| key_at(before, i, key);
            lemma_key_unique(before, c, pos as int);
        }
        assert(self@[pos as int] == self.registrations@[pos as int]@);
        let previous = self.registrations[pos].metadata.clone();
        let ghost view = registration@;
        let mut registrations: Vec<ProviderRegistration> = Vec::new();
        std::mem::swap(&mut registrations, &mut self.registrations);
        registrations.set(pos, registration);
        proof {
            assert(registrations@.map_values(|r: ProviderRegistration| r@) =~= before.update(
                pos as int,
                view,
            ));
            let after = before.update(pos as int, view);
            assert forall|i: int, j: int| 0 <= i < j < after.len() implies key_lt(
                key_of(#[trigger] after[i].metadata),
                key_of(#[trigger] after[j].metadata),
            ) by {
                assert(key_lt(key_of(before[i].metadata), key_of(before[j].metadata)));
            }
        }
        self.registrations = registrations;
        assert(key_at(before, pos as int, key) && self@ == before.update(pos as int, view));
        Ok(previous)
    }

    /// Returns the metadata stored under `(provider, product)`.
    fn lookup(&self, provider: &str, product: Option<&str>) -> (r: Option<
        ProviderRegistrationMetadata,
    >)
        ensures
            opt_metadata(r) == lookup_key(self@, (provider@, opt_text(product))),
    {
        proof {
            use_type_invariant(self);
        }
        let (found, pos) = self.locate(provider, product);
        let ghost key = (provider@, opt_text(product));
        let ghost before = self@;
        if found {
            proof {
                assert(key_at(before, pos as int, key));
                let c = choose|i: int| key_at(before, i, key);
                lemma_key_unique(before, c, pos as int);
            }
            assert(self@[pos as int] == self.registrations@[pos as int]@);
            Some(self.registrations[pos].metadata.clone())
        } else {
            proof {
                lemma_key_order(key, key, key);
                assert forall|j: int| 0 <= j < before.len() implies !key_at(before, j, key) by {
                    if j > pos {
                        assert(key_lt(key_of(before[pos as int].metadata), key_of(before[j].metadata)));
                        lemma_key_order(key, key_of(before[pos as int].metadata), key_of(before[j].metadata));
                    } else if j < pos {
                        assert(key_lt(key_of(before[j].metadata), key));
                    }
                }
            }
            None
        }
    }

    /// Returns metadata for a provider identifier: its registration without a product,
    /// else its only registration, else nothing.
    pub fn get(&self, provider_id: &ProviderId) -> (r: Option<ProviderRegistrationMetadata>)
        ensures
            opt_metadata(r) == lookup_provider(self@, provider_id@),
    {
        let exact = self.lookup(provider_id.as_str(), None);
        if exact.is_some() {
            return exact;
        }
        match self.find_matches(provider_id.as_str(), false) {
            ProviderMatch::Unique(i) => {
                proof {
                    let c = choose|k: int| unique_at(self@, provider_id@, false, k);
                    if c != i as int {
                        assert(provider_match(self@[c], provider_id@, false));
                    }
                }
                assert(self@[i as int] == self.registrations@[i as int]@);
                Some(self.registrations[i].metadata.clone())
            },
            _ => {
                proof {
                    assert forall|k: int| !unique_at(self@, provider_id@, false, k) by {
                        if unique_at(self@, provider_id@, false, k) {
                            assert(provider_match(self@[k], provider_id@, false));
                        }
                    }
                }
                None
            },
        }
    }

    /// Normalizes a textual provider identifier and returns its registration metadata.
    pub fn get_by_name(&self, provider_id: &str) -> (r: Result<
        Option<ProviderRegistrationMetadata>,
        ProviderRegistryError,
    >)
        ensures
            ({
                let normalized = ascii_lowercase(trim_ws(provider_id@));
                if !normalized_id_ok(normalized) || identifier_rejection(normalized) is Some {
                    r is Err && r->Err_0.spec_failure() == ProviderRegistryFailure::InvalidProviderId
                } else {
                    r matches Ok(found) && opt_metadata(found) == lookup_provider(self@, normalized)
                }
            }),
    {
        let id = normalize_provider_id(provider_id)?;
        Ok(self.get(&id))
    }

    /// Returns metadata for one exact static provider product.
    pub fn get_product(&self, provider_id: &ProviderId, product_id: &ProductId) -> (r: Option<
        ProviderRegistrationMetadata,
    >)
        ensures
            opt_metadata(r) == lookup_key(self@, (provider_id@, Some(product_id@))),
    {
        self.lookup(provider_id.as_str(), Some(product_id.as_str()))
    }

    /// Lists registrations in key order.
    pub fn list(&self) -> (r: Vec<ProviderRegistrationMetadata>)
        ensures
            keys_sorted(self@),
            r@.len() == self@.len(),
            forall|i: int| 0 <= i < r@.len() ==> #[trigger] r@[i]@ == self@[i].metadata,
    {
        proof {
            use_type_invariant(self);
        }
        let mut out: Vec<ProviderRegistrationMetadata> = Vec::new();
        let n = self.registrations.len();
        let mut i: usize = 0;
        while i < n
            invariant
                n == self@.len(),
                n == self.registrations@.len(),
                i <= n,
                out@.len() == i,
                forall|k: int| 0 <= k < i ==> #[trigger] out@[k]@ == self@[k].metadata,
            decreases n - i,
        {
            assert(self@[i as int] == self.registrations@[i as int]@);
            out.push(self.registrations[i].metadata.clone());
            i = i + 1;
        }
        out
    }

    /// Removes and returns the metadata at `pos`.
    fn take_at(&mut self, pos: usize) -> (r: ProviderRegistrationMetadata)
        requires
            pos < old(self)@.len(),
        ensures
            r@ == old(self)@[pos as int].metadata,
            final(self)@ == old(self)@.remove(pos as int),
            keys_sorted(final(self)@),
    {
        proof {
            use_type_invariant(&*self);
        }
        let ghost before = self@;
        let mut registrations: Vec<ProviderRegistration> = Vec::new();
        std::mem::swap(&mut registrations, &mut self.registrations);
        assert(before[pos as int] == registrations@[pos as int]@);
        let removed = registrations.remove(pos);
        proof {
            assert(registrations@.map_values(|r: ProviderRegistration| r@) =~= before.remove(
                pos as int,
            ));
            lemma_remove_sorted(before, pos as int);
        }
        self.registrations = registrations;
        removed.metadata
    }

    /// Removes a provider's only registration; a provider with several registrations is
    /// removed product by product.
    pub fn remove(&mut self, provider_id: &ProviderId) -> (r: Option<ProviderRegistrationMetadata>)
        ensures
            keys_sorted(final(self)@),
            match r {
                Some(m) => exists|i: int|
                    unique_at(old(self)@, provider_id@, false, i) && m@ == old(self)@[i].metadata
                        && final(self)@ == old(self)@.remove(i),
                None => (forall|i: int| !unique_at(old(self)@, provider_id@, false, i))
                    && final(self)@ == old(self)@,
            },
    {
        proof {
            use_type_invariant(&*self);
        }
        match self.find_matches(provider_id.as_str(), false) {
            ProviderMatch::Unique(i) => {
                let ghost before = self@;
                let m = self.take_at(i);
                assert(unique_at(before, provider_id@, false, i as int));
                Some(m)
            },
            _ => {
                proof {
                    assert forall|k: int| !unique_at(self@, provider_id@, false, k) by {
                        if unique_at(self@, provider_id@, false, k) {
                            assert(provider_match(self@[k], provider_id@, false));
                        }
                    }
                }
                None
            },
        }
    }

    /// Removes one static product registration.
    pub fn remove_product(&mut self, provider_id: &ProviderId, product_id: &ProductId) -> (r: Option<
        ProviderRegistrationMetadata,
    >)
        ensures
            keys_sorted(final(self)@),
            opt_metadata(r) == lookup_key(old(self)@, (provider_id@, Some(product_id@))),
            match r {
                Some(m) => exists|i: int|
                    key_at(old(self)@, i, (provider_id@, Some(product_id@))) && final(self)@
                        == old(self)@.remove(i),
                None => final(self)@ == old(self)@,
            },
    {
        proof {
            use_type_invariant(&*self);
        }
        let found = self.lookup(provider_id.as_str(), Some(product_id.as_str()));
        if found.is_none() {
            return None;
        }
        let (_, pos) = self.locate(provider_id.as_str(), Some(product_id.as_str()));
        let ghost before = self@;
        proof {
            let key = (provider_id@, Some(product_id@));
            let c = choose|i: int| key_at(before, i, key);
            if !key_at(before, pos as int, key) {
                lemma_key_order(key, key, key);
                if c > pos {
                    assert(key_lt(key_of(before[pos as int].metadata), key_of(before[c].metadata)));
                    lemma_key_order(key, key_of(before[pos as int].metadata), key_of(before[c].metadata));
                } else if c < pos {
                    assert(key_lt(key_of(before[c].metadata), key));
                }
            }
            lemma_key_unique(before, c, pos as int);
        }
        let m = self.take_at(pos);
        Some(m)
    }

    /// Selects the static definition to build a deployment of `provider_id` from: the
    /// deployment must name the same provider, and the provider must have exactly one
    /// registered product.
    pub fn deployment_definition(
        &self,
        provider_id: &ProviderId,
        deployment_provider_id: &ProviderId,
    ) -> (r: Result<&ProviderDefinition, LlmError>)
        ensures
            deployment_provider_id@ != provider_id@ ==> (r matches Err(e) && registry_llm_error(
                e,
                ProviderRegistryFailure::FactoryProviderMismatch,
                provider_id@,
                "deployment provider identity does not match registry selection"@,
            )),
            deployment_provider_id@ == provider_id@ ==> if none_match(self@, provider_id@, true) {
                r matches Err(e) && registry_llm_error(
                    e,
                    ProviderRegistryFailure::RegistrationNotFound,
                    provider_id@,
                    "provider ID is not registered"@,
                )
            } else if exists|i: int| unique_at(self@, provider_id@, true, i) {
                r matches Ok(d) && exists|i: int|
                    unique_at(self@, provider_id@, true, i) && d@ == self@[i].definition
            } else {
                r matches Err(e) && is_configuration(
                    e,
                    "provider has multiple products; select one with build_product_deployment"@,
                )
            },
    {
        if !str_eq(deployment_provider_id.as_str(), provider_id.as_str()) {
            return Err(
                LlmError::Registry(
                    ProviderRegistryError::new(
                        ProviderRegistryFailure::FactoryProviderMismatch,
                        Some(provider_id.as_str()),
                        "deployment provider identity does not match registry selection",
                    ),
                ),
            );
        }
        match self.find_matches(provider_id.as_str(), true) {
            ProviderMatch::Absent => Err(
                LlmError::Registry(
                    ProviderRegistryError::new(
                        ProviderRegistryFailure::RegistrationNotFound,
                        Some(provider_id.as_str()),
                        "provider ID is not registered",
                    ),
                ),
            ),
            ProviderMatch::Unique(i) => {
                assert(self@[i as int] == self.registrations@[i as int]@);
                Ok(&self.registrations[i].definition)
            },
            ProviderMatch::Several => Err(
                crate::error::configuration(
                    "provider has multiple products; select one with build_product_deployment",
                ),
            ),
        }
    }

    /// Selects the static definition of one explicitly chosen product: the deployment
    /// must name the same provider, and the product must be registered.
    pub fn product_deployment_definition(
        &self,
        provider_id: &ProviderId,
        product_id: &ProductId,
        deployment_provider_id: &ProviderId,
    ) -> (r: Result<&ProviderDefinition, LlmError>)
        ensures
            deployment_provider_id@ != provider_id@ ==> (r matches Err(e) && registry_llm_error(
                e,
                ProviderRegistryFailure::FactoryProviderMismatch,
                provider_id@,
                "deployment provider identity does not match registry selection"@,
            )),
            deployment_provider_id@ == provider_id@ ==> match lookup_key(
                self@,
                (provider_id@, Some(product_id@)),
            ) {
                None => r matches Err(e) && registry_llm_error(
                    e,
                    ProviderRegistryFailure::RegistrationNotFound,
                    provider_id@,
                    "provider product is not registered"@,
                ),
                Some(_) => r matches Ok(d) && exists|i: int|
                    key_at(self@, i, (provider_id@, Some(product_id@))) && d@ == self@[i].definition,
            },
    {
        proof {
            use_type_invariant(self);
        }
        if !str_eq(deployment_provider_id.as_str(), provider_id.as_str()) {
            return Err(
                LlmError::Registry(
                    ProviderRegistryError::new(
                        ProviderRegistryFailure::FactoryProviderMismatch,
                        Some(provider_id.as_str()),
                        "deployment provider identity does not match registry selection",
                    ),
                ),
            );
        }
        let (found, pos) = self.locate(provider_id.as_str(), Some(product_id.as_str()));
        let ghost key = (provider_id@, Some(product_id@));
        let ghost before = self@;
        if !found {
            proof {
                lemma_key_order(key, key, key);
                assert forall|j: int| 0 <= j < before.len() implies !key_at(before, j, key) by {
                    if j > pos {
                        assert(key_lt(key_of(before[pos as int].metadata), key_of(before[j].metadata)));
                        lemma_key_order(key, key_of(before[pos as int].metadata), key_of(before[j].metadata));
                    } else if j < pos {
                        assert(key_lt(key_of(before[j].metadata), key));
                    }
                }
            }
            return Err(
                LlmError::Registry(
                    ProviderRegistryError::new(
                        ProviderRegistryFailure::RegistrationNotFound,
                        Some(provider_id.as_str()),
                        "provider product is not registered",
                    ),
                ),
            );
        }
        assert(key_at(before, pos as int, key));
        assert(self@[pos as int] == self.registrations@[pos as int]@);
        Ok(&self.registrations[pos].definition)
    }
}

/// `e` is the registration error with `failure` about provider `p`, with `summary`.
pub open spec fn registry_llm_error(
    e: LlmError,
    failure: ProviderRegistryFailure,
    p: Seq<char>,
    summary: Seq<char>,
) -> bool {
    e matches LlmError::Registry(x) && registry_error_is(x, failure, Some(p), summary)
}

/// Refuses a runtime whose identity differs from the definition it was built from: the
/// provider and product must match, and the protocol too when one is expected.
pub fn check_runtime_identity(
    selected: &ProviderId,
    expected_provider: &ProviderId,
    expected_product: &ProductId,
    expected_protocol: Option<&ProtocolId>,
    runtime_provider: &ProviderId,
    runtime_product: &ProductId,
    runtime_protocol: &ProtocolId,
) -> (r: Result<(), LlmError>)
    ensures
        r is Ok <==> (runtime_provider@ == expected_provider@ && runtime_product@
            == expected_product@ && (expected_protocol matches Some(p) ==> runtime_protocol@
            == p@)),
        r matches Err(e) ==> registry_llm_error(
            e,
            ProviderRegistryFailure::FactoryProviderMismatch,
            selected@,
            "definition compiler returned mismatched runtime identity"@,
        ),
{
    let protocol_matches = match expected_protocol {
        Some(p) => str_eq(runtime_protocol.as_str(), p.as_str()),
        None => true,
    };
    if str_eq(runtime_provider.as_str(), expected_provider.as_str()) && str_eq(
        runtime_product.as_str(),
        expected_product.as_str(),
    ) && protocol_matches {
        Ok(())
    } else {
        Err(
            LlmError::Registry(
                ProviderRegistryError::new(
                    ProviderRegistryFailure::FactoryProviderMismatch,
                    Some(selected.as_str()),
                    "definition compiler returned mismatched runtime identity",
                ),
            ),
        )
    }
}

impl Default for ProviderRegistry {
    fn default() -> (r: Self)
        ensures
            r@ == Seq::<RegisteredView>::empty(),
    {
        ProviderRegistry::new()
    }
}

/// A registration added to a registry is what its key then looks up, and every other key
/// looks up what it did before.
pub proof fn lemma_register_then_lookup(
    before: Seq<RegisteredView>,
    p: int,
    e: RegisteredView,
    other: RegistrationKey,
)
    requires
        keys_sorted(before),
        0 <= p <= before.len(),
        keys_sorted(before.insert(p, e)),
        other != key_of(e.metadata),
    ensures
        lookup_key(before.insert(p, e), key_of(e.metadata)) == Some(e.metadata),
        lookup_key(before.insert(p, e), other) == lookup_key(before, other),
{
    let after = before.insert(p, e);
    let key = key_of(e.metadata);
    assert(key_at(after, p, key));
    let c = choose|i: int| key_at(after, i, key);
    lemma_key_unique(after, c, p);
    if exists|i: int| key_at(before, i, other) {
        let b = choose|i: int| key_at(before, i, other);
        let a = if b < p { b } else { b + 1 };
        assert(after[a] == before[b]);
        assert(key_at(after, a, other));
        let c2 = choose|i: int| key_at(after, i, other);
        lemma_key_unique(after, c2, a);
    }
    if exists|i: int| key_at(after, i, other) {
        let a = choose|i: int| key_at(after, i, other);
        assert(a != p);
        let b = if a < p { a } else { a - 1 };
        assert(after[a] == before[b]);
        assert(key_at(before, b, other));
    }
}

/// A key removed from a registry looks nothing up afterwards.
pub proof fn lemma_remove_then_absent(before: Seq<RegisteredView>, i: int)
    requires
        keys_sorted(before),
        0 <= i < before.len(),
    ensures
        lookup_key(before.remove(i), key_of(before[i].metadata)) is None,
{
    let after = before.remove(i);
    let key = key_of(before[i].metadata);
    if exists|j: int| key_at(after, j, key) {
        let j = choose|j: int| key_at(after, j, key);
        let b = if j < i { j } else { j + 1 };
        assert(after[j] == before[b]);
        lemma_key_unique(before, b, i);
    }
}

/// A registry never holds two registrations under one key.
pub proof fn lemma_keys_unique(entries: Seq<RegisteredView>, i: int, j: int)
    requires
        keys_sorted(entries),
        0 <= i < entries.len(),
        0 <= j < entries.len(),
        i != j,
    ensures
        key_of(entries[i].metadata) != key_of(entries[j].metadata),
{
    if key_of(entries[i].metadata) == key_of(entries[j].metadata) {
        lemma_key_unique(entries, i, j);
    }
}

} // verus!
