//! Provider request idempotency identity and private wire policy.

use vstd::prelude::*;

use crate::error::{is_validation, validation, validation_is, LlmError, ValidationError, ValidationReason};
use crate::text::{all_chars_in, all_in_set, concat, owned, utf8_len, utf8_len_exceeds, CharSet};

verus! {

/// The largest idempotency key, in UTF-8 bytes.
pub const MAX_KEY_BYTES: usize = 128;

/// The header that carries an idempotency key.
pub const STANDARD_HEADER: &'static str = "idempotency-key";

/// Why a key is rejected, as reason and summary, or `None` when it is valid: 1 to 128
/// bytes of ASCII letters, digits, `-`, `_`, `.` and `:`.
pub open spec fn key_rejection(value: Seq<char>) -> Option<(ValidationReason, Seq<char>)> {
    if value.len() == 0 {
        Some((ValidationReason::Empty, "idempotency key is empty"@))
    } else if utf8_len(value) > 128 {
        Some((ValidationReason::OutOfRange, "idempotency key exceeds the SDK byte limit"@))
    } else if !all_in_set(value, CharSet::IdempotencyKey) {
        Some(
            (
                ValidationReason::InvalidIdentifier,
                "idempotency key contains an unsupported character"@,
            ),
        )
    } else {
        None
    }
}

/// A lower-case hexadecimal digit.
pub open spec fn is_lower_hex(c: char) -> bool {
    ('0' <= c && c <= '9') || ('a' <= c && c <= 'f')
}

/// A fresh random version-4 UUID in its simple format, from `uuid::Uuid::new_v4` and
/// `simple()`.
///
/// Trusted: the crate documents the simple format as 32 lower-case hexadecimal digits,
/// and `new_v4` masks in the version digit `4` (the thirteenth digit) and the RFC 4122
/// variant (the seventeenth digit is one of `8`, `9`, `a`, `b`). Which other digits come
/// out is chance; nothing else is stated. The call panics only if the operating system's
/// random source fails.
#[verifier::external_body]
fn random_simple_uuid() -> (r: String)
    ensures
        r@.len() == 32,
        forall|i: int| 0 <= i < 32 ==> is_lower_hex(#[trigger] r@[i]),
        r@[12] == '4',
        r@[16] == '8' || r@[16] == '9' || r@[16] == 'a' || r@[16] == 'b',
{
    uuid::Uuid::new_v4().simple().to_string()
}

/// Opaque, validated provider-request idempotency key.
#[derive(Debug)]
pub struct IdempotencyKey(String);

impl View for IdempotencyKey {
    type V = Seq<char>;

    closed spec fn view(&self) -> Seq<char> {
        self.0@
    }
}

impl Clone for IdempotencyKey {
    fn clone(&self) -> (r: Self)
        ensures
            r@ == self@,
    {
        proof {
            use_type_invariant(self);
        }
        IdempotencyKey(self.0.clone())
    }
}

/// The key alphabet: ASCII letters of either case, digits, `-`, `_`, `.` and `:`.
pub open spec fn key_alphabet(c: char) -> bool {
    ('a' <= c && c <= 'z') || ('A' <= c && c <= 'Z') || ('0' <= c && c <= '9') || c == '-' || c == '_'
        || c == '.' || c == ':'
}

/// A caller key is accepted exactly when it has 1 to 128 characters, all from the key
/// alphabet; such a key is one byte per character.
pub proof fn lemma_key_acceptance(value: Seq<char>)
    ensures
        key_rejection(value) is None <==> (0 < value.len() <= 128 && forall|i: int|
            0 <= i < value.len() ==> key_alphabet(#[trigger] value[i])),
{
    let alphabet = forall|i: int| 0 <= i < value.len() ==> key_alphabet(#[trigger] value[i]);
    if alphabet {
        assert forall|i: int| 0 <= i < value.len() implies (#[trigger] value[i] as u32) < 0x80 by {
            assert(key_alphabet(value[i]));
        }
        crate::text::lemma_utf8_len_ascii(value);
        assert forall|i: int| 0 <= i < value.len() implies #[trigger] crate::text::in_set(
            value[i],
            CharSet::IdempotencyKey,
        ) by {
            assert(key_alphabet(value[i]));
        }
    }
    if all_in_set(value, CharSet::IdempotencyKey) {
        assert forall|i: int| 0 <= i < value.len() implies key_alphabet(#[trigger] value[i]) by {
            assert(crate::text::in_set(value[i], CharSet::IdempotencyKey));
        }
        assert forall|i: int| 0 <= i < value.len() implies (#[trigger] value[i] as u32) < 0x80 by {
            assert(crate::text::in_set(value[i], CharSet::IdempotencyKey));
        }
        crate::text::lemma_utf8_len_ascii(value);
    }
}

impl IdempotencyKey {
    #[verifier::type_invariant]
    spec fn valid(self) -> bool {
        key_rejection(self.0@) is None
    }

    /// Validates a caller-supplied key.
    pub fn new(value: &str) -> (r: Result<Self, ValidationError>)
        ensures
            match key_rejection(value@) {
                Some((reason, summary)) => r matches Err(e) && validation_is(
                    e,
                    "idempotency_key"@,
                    reason,
                    summary,
                ),
                None => r matches Ok(k) && k@ == value@,
            },
    {
        if value.unicode_len() == 0 {
            return Err(
                ValidationError::new(
                    "idempotency_key",
                    ValidationReason::Empty,
                    "idempotency key is empty",
                ),
            );
        }
        if utf8_len_exceeds(value, MAX_KEY_BYTES) {
            return Err(
                ValidationError::new(
                    "idempotency_key",
                    ValidationReason::OutOfRange,
                    "idempotency key exceeds the SDK byte limit",
                ),
            );
        }
        if !all_chars_in(value, CharSet::IdempotencyKey) {
            return Err(
                ValidationError::new(
                    "idempotency_key",
                    ValidationReason::InvalidIdentifier,
                    "idempotency key contains an unsupported character",
                ),
            );
        }
        Ok(IdempotencyKey(owned(value)))
    }

    /// Generates a random key, `philo_` and the 32 lower-case hexadecimal digits of a
    /// version-4 UUID, without using request content.
    pub fn generate() -> (r: Self)
        ensures
            r@.len() == 38,
            r@.subrange(0, 6) == "philo_"@,
            forall|i: int| 6 <= i < 38 ==> is_lower_hex(#[trigger] r@[i]),
            r@[18] == '4',
            r@[22] == '8' || r@[22] == '9' || r@[22] == 'a' || r@[22] == 'b',
    {
        let suffix = random_simple_uuid();
        let key = concat(owned("philo_"), suffix.as_str());
        proof {
            reveal_strlit("philo_");
            assert(key@.subrange(0, 6) =~= "philo_"@);
            assert forall|i: int| 0 <= i < key@.len() implies crate::text::in_set(
                #[trigger] key@[i],
                CharSet::IdempotencyKey,
            ) by {
                if i >= 6 {
                    assert(key@[i] == suffix@[i - 6]);
                    assert(is_lower_hex(suffix@[i - 6]));
                }
            }
            assert forall|i: int| 0 <= i < key@.len() implies (#[trigger] key@[i] as u32) < 0x80 by {
                assert(crate::text::in_set(key@[i], CharSet::IdempotencyKey));
            }
            crate::text::lemma_utf8_len_ascii(key@);
            assert(key@[18] == suffix@[12]);
            assert(key@[22] == suffix@[16]);
        }
        IdempotencyKey(key)
    }

    /// Returns the header value; every key is a valid header value.
    pub fn header_value(&self) -> (r: &str)
        ensures
            r@ == self@,
            key_rejection(self@) is None,
            all_in_set(r@, CharSet::HeaderValue),
    {
        proof {
            use_type_invariant(self);
            assert forall|i: int| 0 <= i < self@.len() implies crate::text::in_set(
                #[trigger] self@[i],
                CharSet::HeaderValue,
            ) by {
                assert(crate::text::in_set(self@[i], CharSet::IdempotencyKey));
            }
        }
        self.0.as_str()
    }
}

/// Provider capability for request-level idempotency keys.
#[derive(Clone, Copy, Debug, PartialEq, Eq, Structural)]
pub enum IdempotencyCapability {
    /// The reviewed provider profile declares supported wire behavior.
    Supported,
    /// The provider explicitly does not support request idempotency keys.
    Unsupported,
    /// Support has not been established and is treated fail-closed.
    Unknown,
}

/// Source of a logical request's opaque key.
#[derive(Clone, Copy, Debug, PartialEq, Eq, Structural)]
pub enum IdempotencyKeySource {
    /// Supplied explicitly by the SDK caller.
    Caller,
    /// Generated randomly by the SDK for this logical request.
    SdkGenerated,
}

/// How a key travels on the wire.
#[derive(Clone, Copy, Debug, PartialEq, Eq, Structural)]
pub enum IdempotencyWire {
    /// The `idempotency-key` request header.
    StandardHeader,
}

/// Immutable provider idempotency capability and private encoding policy.
#[derive(Clone, Copy, Debug, PartialEq, Eq, Structural)]
pub struct IdempotencyPolicy {
    capability: IdempotencyCapability,
    wire: Option<IdempotencyWire>,
}

impl IdempotencyPolicy {
    /// The declared capability.
    pub closed spec fn spec_capability(self) -> IdempotencyCapability {
        self.capability
    }

    /// The wire encoding, if any.
    pub closed spec fn spec_wire(self) -> Option<IdempotencyWire> {
        self.wire
    }

    /// Creates a fail-closed policy whose support is unknown.
    pub fn unknown() -> (r: Self)
        ensures
            r.spec_capability() == IdempotencyCapability::Unknown,
            r.spec_wire() is None,
    {
        IdempotencyPolicy { capability: IdempotencyCapability::Unknown, wire: None }
    }

    /// Creates a policy for a provider known not to support idempotency keys.
    pub fn unsupported() -> (r: Self)
        ensures
            r.spec_capability() == IdempotencyCapability::Unsupported,
            r.spec_wire() is None,
    {
        IdempotencyPolicy { capability: IdempotencyCapability::Unsupported, wire: None }
    }

    /// Creates the reviewed standard-header encoding policy.
    pub fn standard_header() -> (r: Self)
        ensures
            r.spec_capability() == IdempotencyCapability::Supported,
            r.spec_wire() == Some(IdempotencyWire::StandardHeader),
    {
        IdempotencyPolicy {
            capability: IdempotencyCapability::Supported,
            wire: Some(IdempotencyWire::StandardHeader),
        }
    }

    /// Returns the declared provider capability.
    pub fn capability(&self) -> (r: IdempotencyCapability)
        ensures
            r == self.spec_capability(),
    {
        self.capability
    }

    /// Returns the header that carries the key, if the policy has a wire encoding.
    pub fn header_name(&self) -> (r: Option<&'static str>)
        ensures
            match self.spec_wire() {
                Some(_) => r matches Some(n) && n@ == STANDARD_HEADER@,
                None => r is None,
            },
    {
        match self.wire {
            Some(IdempotencyWire::StandardHeader) => Some(STANDARD_HEADER),
            None => None,
        }
    }
}

impl Default for IdempotencyPolicy {
    fn default() -> (r: Self)
        ensures
            r.spec_capability() == IdempotencyCapability::Unknown,
            r.spec_wire() is None,
    {
        Self::unknown()
    }
}

/// The idempotency decision for one logical request.
#[derive(Debug)]
pub struct ResolvedIdempotency {
    key: Option<IdempotencyKey>,
    source: Option<IdempotencyKeySource>,
    capability: IdempotencyCapability,
    header: Option<&'static str>,
}

/// Why a key request is refused under a policy's capability.
pub open spec fn refusal_reason(capability: IdempotencyCapability) -> ValidationReason {
    match capability {
        IdempotencyCapability::Unsupported => ValidationReason::CapabilityUnsupported,
        _ => ValidationReason::CapabilityUnknown,
    }
}

impl ResolvedIdempotency {
    /// The key, if any.
    pub closed spec fn spec_key(&self) -> Option<Seq<char>> {
        match self.key {
            Some(k) => Some(k@),
            None => None,
        }
    }

    /// Where the key came from.
    pub closed spec fn spec_source(&self) -> Option<IdempotencyKeySource> {
        self.source
    }

    /// The policy's capability.
    pub closed spec fn spec_capability(&self) -> IdempotencyCapability {
        self.capability
    }

    /// The header carrying the key, if any.
    pub closed spec fn spec_header(&self) -> Option<Seq<char>> {
        match self.header {
            Some(h) => Some(h@),
            None => None,
        }
    }

    /// Decides the key for one logical request: a caller key or an explicit request to
    /// generate one needs declared support; a caller key is used as given; otherwise a key
    /// is generated when support is declared and generation or automatic retry asks for one.
    pub fn resolve(
        policy: &IdempotencyPolicy,
        caller_key: Option<&IdempotencyKey>,
        generate: bool,
        automatic_for_retry: bool,
    ) -> (r: Result<Self, LlmError>)
        ensures
            (caller_key is Some || generate) && policy.spec_capability()
                != IdempotencyCapability::Supported ==> (r matches Err(e) && is_validation(
                e,
                "idempotency_key"@,
                refusal_reason(policy.spec_capability()),
                "selected provider does not declare idempotency-key support"@,
            )),
            !((caller_key is Some || generate) && policy.spec_capability()
                != IdempotencyCapability::Supported) ==> (r matches Ok(d) && {
                &&& d.spec_capability() == policy.spec_capability()
                &&& d.spec_header() == match policy.spec_wire() {
                    Some(_) => Some(STANDARD_HEADER@),
                    None => None,
                }
                &&& match caller_key {
                    Some(k) => d.spec_key() == Some(k@) && d.spec_source() == Some(
                        IdempotencyKeySource::Caller,
                    ),
                    None => if policy.spec_capability() == IdempotencyCapability::Supported && (
                    generate || automatic_for_retry) {
                        d.spec_key() is Some && key_rejection(d.spec_key().unwrap()) is None
                            && d.spec_source() == Some(IdempotencyKeySource::SdkGenerated)
                    } else {
                        d.spec_key() is None && d.spec_source() is None
                    },
                }
            }),
    {
        let requested = caller_key.is_some() || generate;
        if requested && policy.capability != IdempotencyCapability::Supported {
            let reason = match policy.capability {
                IdempotencyCapability::Unsupported => ValidationReason::CapabilityUnsupported,
                _ => ValidationReason::CapabilityUnknown,
            };
            return Err(
                validation(
                    "idempotency_key",
                    reason,
                    "selected provider does not declare idempotency-key support",
                ),
            );
        }
        let (key, source) = match caller_key {
            Some(k) => (Some(k.clone()), Some(IdempotencyKeySource::Caller)),
            None => if policy.capability == IdempotencyCapability::Supported && (generate
                || automatic_for_retry) {
                let generated = IdempotencyKey::generate();
                proof {
                    use_type_invariant(&generated);
                }
                (Some(generated), Some(IdempotencyKeySource::SdkGenerated))
            } else {
                (None, None)
            },
        };
        Ok(
            ResolvedIdempotency {
                key,
                source,
                capability: policy.capability,
                header: policy.header_name(),
            },
        )
    }

    /// Returns the header name and key value to send, when there is both a key and a
    /// wire encoding.
    pub fn header_entry(&self) -> (r: Option<(&'static str, &str)>)
        ensures
            match (self.spec_key(), self.spec_header()) {
                (Some(k), Some(h)) => r matches Some(entry) && entry.0@ == h && entry.1@ == k,
                _ => r is None,
            },
    {
        match (&self.key, self.header) {
            (Some(key), Some(name)) => Some((name, key.header_value())),
            _ => None,
        }
    }

    /// Returns where the key came from.
    pub fn source(&self) -> (r: Option<IdempotencyKeySource>)
        ensures
            r == self.spec_source(),
    {
        self.source
    }

    /// Returns the policy's capability.
    pub fn capability(&self) -> (r: IdempotencyCapability)
        ensures
            r == self.spec_capability(),
    {
        self.capability
    }

    /// Returns whether a key is sent.
    pub fn is_present(&self) -> (r: bool)
        ensures
            r == self.spec_key() is Some,
    {
        self.key.is_some()
    }

    /// Returns whether a retry may replay the request: a key is sent and support is declared.
    pub fn replay_safe(&self) -> (r: bool)
        ensures
            r == (self.spec_key() is Some && self.spec_capability()
                == IdempotencyCapability::Supported),
    {
        self.key.is_some() && self.capability == IdempotencyCapability::Supported
    }
}

} // verus!
