//! Typed, value-free provider rate-limit response metadata.
//!
//! Times are whole seconds: delays as seconds, instants as seconds since the Unix epoch.

use vstd::prelude::*;

use crate::error::{validation_is, ValidationError, ValidationReason};
use crate::text::{chars_of, is_digit, str_eq};

verus! {

/// The largest number of provider-specific header declarations.
pub const MAX_DECLARATIONS: usize = 16;

/// The longest reset delay kept, in seconds (one day).
pub const MAX_RESET_DELAY_SECONDS: u64 = 86400;

/// The largest instant the platform clock represents, in seconds since the epoch.
pub const MAX_INSTANT_SECONDS: u64 = 9223372036854775807;

/// State of one optional rate-limit response field.
#[derive(Clone, Copy, Debug, PartialEq, Eq)]
pub enum RateLimitValue<T> {
    /// The provider did not supply a declared value.
    Unknown,
    /// A declared value was parsed and bounded successfully.
    Valid(T),
    /// A declared value was present but malformed, conflicting, negative, or out of bounds.
    Invalid,
}

/// Unit attached to a typed remaining-quota declaration.
#[derive(Clone, Copy, Debug, PartialEq, Eq, Structural)]
pub enum RateLimitUnit {
    /// Provider requests.
    Requests,
    /// Model input or output tokens.
    Tokens,
    /// A provider-defined unit that must not drive generic quota arithmetic.
    ProviderDefined,
}

/// Parsed remaining quota with an explicit unit.
#[derive(Clone, Copy, Debug, PartialEq, Eq, Structural)]
pub struct RateLimitQuota {
    remaining: u64,
    unit: RateLimitUnit,
}

impl RateLimitQuota {
    /// The remaining amount.
    pub closed spec fn spec_remaining(self) -> u64 {
        self.remaining
    }

    /// The unit.
    pub closed spec fn spec_unit(self) -> RateLimitUnit {
        self.unit
    }

    /// Returns the non-negative remaining amount.
    pub fn remaining(self) -> (r: u64)
        ensures
            r == self.spec_remaining(),
    {
        self.remaining
    }

    /// Returns the declared unit.
    pub fn unit(self) -> (r: RateLimitUnit)
        ensures
            r == self.spec_unit(),
    {
        self.unit
    }
}

/// A quota of `remaining` in `unit`.
pub closed spec fn quota_of(remaining: u64, unit: RateLimitUnit) -> RateLimitQuota {
    RateLimitQuota { remaining, unit }
}

/// The parts of a quota built by [`quota_of`].
pub proof fn lemma_quota_of(remaining: u64, unit: RateLimitUnit)
    ensures
        quota_of(remaining, unit).spec_remaining() == remaining,
        quota_of(remaining, unit).spec_unit() == unit,
{
}

/// Safely parsed provider reset hint.
#[derive(Clone, Copy, Debug, PartialEq, Eq, Structural)]
pub enum RateLimitReset {
    /// Delay from response observation time, in seconds.
    After(u64),
    /// Absolute provider reset instant, in seconds since the Unix epoch.
    At(u64),
}

/// Where a rate-limit observation came from.
#[derive(Clone, Copy, Debug, PartialEq, Eq, Structural)]
pub enum RateLimitSourceKind {
    /// Only standard HTTP status or `Retry-After` semantics were involved.
    Standard,
    /// Only typed provider-profile declarations were involved.
    ProviderProfile,
    /// Standard HTTP and typed provider declarations both contributed.
    StandardAndProviderProfile,
}

/// Typed, value-free metadata parsed independently for one HTTP attempt.
#[derive(Clone, Copy, Debug)]
pub struct RateLimitObservation {
    status_is_rate_limited: bool,
    retry_after: RateLimitValue<u64>,
    remaining_requests: RateLimitValue<u64>,
    remaining_units: RateLimitValue<RateLimitQuota>,
    reset: RateLimitValue<RateLimitReset>,
    source: RateLimitSourceKind,
}

/// Mathematical form of a [`RateLimitObservation`].
pub struct ObservationView {
    pub status_is_rate_limited: bool,
    pub retry_after: RateLimitValue<u64>,
    pub remaining_requests: RateLimitValue<u64>,
    pub remaining_units: RateLimitValue<RateLimitQuota>,
    pub reset: RateLimitValue<RateLimitReset>,
    pub source: RateLimitSourceKind,
}

impl View for RateLimitObservation {
    type V = ObservationView;

    closed spec fn view(&self) -> ObservationView {
        ObservationView {
            status_is_rate_limited: self.status_is_rate_limited,
            retry_after: self.retry_after,
            remaining_requests: self.remaining_requests,
            remaining_units: self.remaining_units,
            reset: self.reset,
            source: self.source,
        }
    }
}

impl RateLimitObservation {
    /// Returns whether this attempt received HTTP 429.
    pub fn status_is_rate_limited(self) -> (r: bool)
        ensures
            r == self@.status_is_rate_limited,
    {
        self.status_is_rate_limited
    }

    /// Returns the retry delay state, in seconds.
    pub fn retry_after(self) -> (r: RateLimitValue<u64>)
        ensures
            r == self@.retry_after,
    {
        self.retry_after
    }

    /// Returns a typed remaining-request count.
    pub fn remaining_requests(self) -> (r: RateLimitValue<u64>)
        ensures
            r == self@.remaining_requests,
    {
        self.remaining_requests
    }

    /// Returns a typed remaining quota whose unit is explicit.
    pub fn remaining_units(self) -> (r: RateLimitValue<RateLimitQuota>)
        ensures
            r == self@.remaining_units,
    {
        self.remaining_units
    }

    /// Returns the bounded reset hint.
    pub fn reset(self) -> (r: RateLimitValue<RateLimitReset>)
        ensures
            r == self@.reset,
    {
        self.reset
    }

    /// Returns the safe source classification.
    pub fn source(self) -> (r: RateLimitSourceKind)
        ensures
            r == self@.source,
    {
        self.source
    }

    /// Returns the retry delay, when one was declared validly.
    pub fn retry_after_delay(self) -> (r: Option<u64>)
        ensures
            r == match self@.retry_after {
                RateLimitValue::Valid(d) => Some(d),
                _ => None,
            },
    {
        match self.retry_after {
            RateLimitValue::Valid(delay) => Some(delay),
            _ => None,
        }
    }
}

/// Encoding of one reviewed provider-specific rate-limit header.
#[derive(Clone, Copy, Debug, PartialEq, Eq, Structural)]
pub enum RateLimitHeaderKind {
    /// Non-negative remaining request count.
    RemainingRequests,
    /// Non-negative remaining amount with an explicit unit.
    RemainingUnits(RateLimitUnit),
    /// Reset duration encoded as integer seconds.
    ResetAfterSeconds,
    /// Reset time encoded as Unix seconds.
    ResetAtUnixSeconds,
    /// Retry delay encoded as integer seconds.
    RetryAfterSeconds,
    /// Retry time encoded as Unix seconds.
    RetryAtUnixSeconds,
}

/// One typed provider-profile response-header declaration.
#[derive(Debug)]
pub struct RateLimitHeaderSpec {
    name: String,
    kind: RateLimitHeaderKind,
}

impl RateLimitHeaderSpec {
    /// The normalized header name.
    pub closed spec fn spec_name(&self) -> Seq<char> {
        self.name@
    }

    /// The declared encoding.
    pub closed spec fn spec_kind(&self) -> RateLimitHeaderKind {
        self.kind
    }

    /// Creates one declaration from a normalized (lower-case) HTTP header name and typed
    /// encoding.
    pub fn new(name: &str, kind: RateLimitHeaderKind) -> (r: Self)
        ensures
            r.spec_name() == name@,
            r.spec_kind() == kind,
    {
        RateLimitHeaderSpec { name: name.to_owned(), kind }
    }

    /// Returns the normalized header name.
    pub fn name(&self) -> (r: &str)
        ensures
            r@ == self.spec_name(),
    {
        self.name.as_str()
    }

    /// Returns the declared encoding and unit.
    pub fn kind(&self) -> (r: RateLimitHeaderKind)
        ensures
            r == self.spec_kind(),
    {
        self.kind
    }
}

/// Immutable typed declarations used to parse one provider's response metadata.
#[derive(Debug)]
pub struct RateLimitPolicy {
    headers: Vec<RateLimitHeaderSpec>,
}

impl RateLimitPolicy {
    /// The declarations, in the order added.
    pub closed spec fn spec_headers(&self) -> Seq<(Seq<char>, RateLimitHeaderKind)> {
        self.headers@.map_values(|h: RateLimitHeaderSpec| (h.spec_name(), h.spec_kind()))
    }

    #[verifier::type_invariant]
    spec fn bounded_and_unique(self) -> bool {
        &&& self.headers@.len() <= MAX_DECLARATIONS
        &&& forall|i: int, j: int|
            0 <= i < j < self.headers@.len() ==> self.headers@[i].spec_name()
                != self.headers@[j].spec_name()
    }

    /// Creates a policy that observes HTTP 429 and standard `Retry-After` only.
    pub fn standard_only() -> (r: Self)
        ensures
            r.spec_headers() == Seq::<(Seq<char>, RateLimitHeaderKind)>::empty(),
    {
        let r = RateLimitPolicy { headers: Vec::new() };
        assert(r.spec_headers() =~= Seq::<(Seq<char>, RateLimitHeaderKind)>::empty());
        r
    }

    /// Adds one reviewed provider-specific header declaration.
    pub fn with_header(self, spec: RateLimitHeaderSpec) -> (r: Result<Self, ValidationError>)
        ensures
            self.spec_headers().len() >= MAX_DECLARATIONS ==> (r matches Err(e) && validation_is(
                e,
                "rate_limit.headers"@,
                ValidationReason::OutOfRange,
                "rate-limit header declaration count exceeds the SDK limit"@,
            )),
            self.spec_headers().len() < MAX_DECLARATIONS && (exists|i: int|
                0 <= i < self.spec_headers().len() && #[trigger] self.spec_headers()[i].0
                    == spec.spec_name()) ==> (r matches Err(e) && validation_is(
                e,
                "rate_limit.headers"@,
                ValidationReason::Conflict,
                "rate-limit header names must be unique"@,
            )),
            self.spec_headers().len() < MAX_DECLARATIONS && !(exists|i: int|
                0 <= i < self.spec_headers().len() && #[trigger] self.spec_headers()[i].0
                    == spec.spec_name()) ==> (r matches Ok(p) && p.spec_headers()
                == self.spec_headers().push((spec.spec_name(), spec.spec_kind()))),
    {
        proof {
            use_type_invariant(&self);
            assert(self.spec_headers().len() == self.headers@.len());
        }
        if self.headers.len() >= MAX_DECLARATIONS {
            return Err(
                ValidationError::new(
                    "rate_limit.headers",
                    ValidationReason::OutOfRange,
                    "rate-limit header declaration count exceeds the SDK limit",
                ),
            );
        }
        let mut i: usize = 0;
        while i < self.headers.len()
            invariant
                i <= self.headers@.len(),
                self.headers@.len() < MAX_DECLARATIONS,
                self.spec_headers().len() == self.headers@.len(),
                forall|j: int| 0 <= j < i ==> self.headers@[j].spec_name() != spec.spec_name(),
            decreases self.headers.len() - i,
        {
            if str_eq(self.headers[i].name.as_str(), spec.name.as_str()) {
                proof {
                    assert(self.spec_headers()[i as int].0 == spec.spec_name());
                }
                return Err(
                    ValidationError::new(
                        "rate_limit.headers",
                        ValidationReason::Conflict,
                        "rate-limit header names must be unique",
                    ),
                );
            }
            i = i + 1;
        }
        proof {
            assert forall|j: int| 0 <= j < self.spec_headers().len() implies #[trigger] self.spec_headers()[j].0
                != spec.spec_name() by {
                assert(self.headers@[j].spec_name() != spec.spec_name());
            }
        }
        let RateLimitPolicy { headers } = self;
        let mut headers = headers;
        let ghost before = headers@;
        headers.push(spec);
        let r = RateLimitPolicy { headers };
        proof {
            assert(r.spec_headers() =~= before.map_values(
                |h: RateLimitHeaderSpec| (h.spec_name(), h.spec_kind()),
            ).push((spec.spec_name(), spec.spec_kind())));
        }
        Ok(r)
    }

    /// Returns the number of provider-specific declarations.
    pub fn provider_header_count(&self) -> (r: usize)
        ensures
            r == self.spec_headers().len(),
    {
        self.headers.len()
    }
}

/// Combines a field's state with another occurrence: unknown takes the incoming state,
/// equal valid values agree, an unknown incoming value changes nothing, anything else is
/// invalid.
pub open spec fn merged<T>(target: RateLimitValue<T>, incoming: RateLimitValue<T>) -> RateLimitValue<
    T,
> {
    match (target, incoming) {
        (RateLimitValue::Unknown, value) => value,
        (RateLimitValue::Valid(left), RateLimitValue::Valid(right)) => if left == right {
            target
        } else {
            RateLimitValue::Invalid
        },
        (_, RateLimitValue::Unknown) => target,
        _ => RateLimitValue::Invalid,
    }
}

fn merge_count(target: RateLimitValue<u64>, incoming: RateLimitValue<u64>) -> (r: RateLimitValue<
    u64,
>)
    ensures
        r == merged(target, incoming),
{
    match (target, incoming) {
        (RateLimitValue::Unknown, value) => value,
        (RateLimitValue::Valid(left), RateLimitValue::Valid(right)) => if left == right {
            target
        } else {
            RateLimitValue::Invalid
        },
        (_, RateLimitValue::Unknown) => target,
        _ => RateLimitValue::Invalid,
    }
}

fn merge_quota(
    target: RateLimitValue<RateLimitQuota>,
    incoming: RateLimitValue<RateLimitQuota>,
) -> (r: RateLimitValue<RateLimitQuota>)
    ensures
        r == merged(target, incoming),
{
    match (target, incoming) {
        (RateLimitValue::Unknown, value) => value,
        (RateLimitValue::Valid(left), RateLimitValue::Valid(right)) => if left == right {
            target
        } else {
            RateLimitValue::Invalid
        },
        (_, RateLimitValue::Unknown) => target,
        _ => RateLimitValue::Invalid,
    }
}

fn merge_reset(
    target: RateLimitValue<RateLimitReset>,
    incoming: RateLimitValue<RateLimitReset>,
) -> (r: RateLimitValue<RateLimitReset>)
    ensures
        r == merged(target, incoming),
{
    match (target, incoming) {
        (RateLimitValue::Unknown, value) => value,
        (RateLimitValue::Valid(left), RateLimitValue::Valid(right)) => if left == right {
            target
        } else {
            RateLimitValue::Invalid
        },
        (_, RateLimitValue::Unknown) => target,
        _ => RateLimitValue::Invalid,
    }
}

/// The decimal value of a digit string.
pub open spec fn decimal_value(s: Seq<char>) -> int
    decreases s.len(),
{
    if s.len() == 0 {
        0
    } else {
        10 * decimal_value(s.drop_last()) + ((s.last() as int) - ('0' as int))
    }
}

/// How one header value parses as a count: non-empty ASCII digits whose value fits in
/// `u64`.
pub open spec fn count_of(text: Seq<char>) -> Option<u64> {
    if text.len() > 0 && (forall|i: int| 0 <= i < text.len() ==> is_digit(#[trigger] text[i]))
        && decimal_value(text) <= u64::MAX {
        Some(decimal_value(text) as u64)
    } else {
        None
    }
}

fn parse_count(text: &str) -> (r: Option<u64>)
    ensures
        r == count_of(text@),
{
    let chars = chars_of(text);
    if chars.len() == 0 {
        return None;
    }
    let mut value: u64 = 0;
    let mut i: usize = 0;
    while i < chars.len()
        invariant
            chars@ == text@,
            i <= chars@.len(),
            forall|j: int| 0 <= j < i ==> is_digit(#[trigger] text@[j]),
            value == decimal_value(text@.take(i as int)),
        decreases chars.len() - i,
    {
        let c = chars[i];
        if !('0' <= c && c <= '9') {
            return None;
        }
        proof {
            assert(text@.take(i + 1).drop_last() =~= text@.take(i as int));
        }
        let digit = (c as u32 - '0' as u32) as u64;
        if value > (u64::MAX - digit) / 10 {
            proof {
                lemma_decimal_value_prefix(text@, i as int);
                assert(decimal_value(text@.take(i + 1)) > u64::MAX) by (nonlinear_arith)
                    requires
                        decimal_value(text@.take(i + 1)) == 10 * value + digit,
                        value > (u64::MAX - digit) / 10,
                        digit <= 9,
                ;
                if forall|j: int| 0 <= j < text@.len() ==> is_digit(#[trigger] text@[j]) {
                    lemma_decimal_value_monotone(text@, i + 1, text@.len() as int);
                    assert(text@.take(text@.len() as int) =~= text@);
                }
            }
            return None;
        }
        value = value * 10 + digit;
        i = i + 1;
    }
    proof {
        assert(text@.take(i as int) =~= text@);
    }
    Some(value)
}

/// A longer digit prefix has at least the value of a shorter one.
proof fn lemma_decimal_value_monotone(text: Seq<char>, k: int, n: int)
    requires
        0 <= k <= n <= text.len(),
        forall|j: int| 0 <= j < n ==> is_digit(#[trigger] text[j]),
    ensures
        decimal_value(text.take(k)) <= decimal_value(text.take(n)),
    decreases n - k,
{
    if k < n {
        lemma_decimal_value_monotone(text, k, n - 1);
        lemma_decimal_value_prefix(text, n - 1);
        assert(text.take(n).drop_last() =~= text.take(n - 1));
        assert(is_digit(text[n - 1]));
    }
}

/// A digit prefix has a non-negative value.
proof fn lemma_decimal_value_prefix(text: Seq<char>, k: int)
    requires
        0 <= k <= text.len(),
        forall|j: int| 0 <= j < k ==> is_digit(#[trigger] text[j]),
    ensures
        decimal_value(text.take(k)) >= 0,
    decreases k,
{
    if k > 0 {
        assert(text.take(k).drop_last() =~= text.take(k - 1));
        lemma_decimal_value_prefix(text, k - 1);
    }
}

/// The views of response headers: lower-case name, and the value when it is visible
/// ASCII text.
pub open spec fn header_views(headers: Seq<(String, Option<String>)>) -> Seq<
    (Seq<char>, Option<Seq<char>>),
> {
    headers.map_values(
        |h: (String, Option<String>)|
            (
                h.0@,
                match h.1 {
                    Some(v) => Some(v@),
                    None => None,
                },
            ),
    )
}

/// The values of every header named `name`, in order.
pub open spec fn values_for(headers: Seq<(Seq<char>, Option<Seq<char>>)>, name: Seq<char>) -> Seq<
    Option<Seq<char>>,
>
    decreases headers.len(),
{
    if headers.len() == 0 {
        Seq::empty()
    } else {
        let rest = values_for(headers.drop_last(), name);
        if headers.last().0 == name {
            rest.push(headers.last().1)
        } else {
            rest
        }
    }
}

/// The count the values of one header agree on: invalid when a value is not visible
/// text, is not a count, or differs from an earlier one; unknown when there is none.
pub open spec fn consistent_count(values: Seq<Option<Seq<char>>>, selected: Option<u64>) -> RateLimitValue<
    u64,
>
    decreases values.len(),
{
    if values.len() == 0 {
        match selected {
            Some(v) => RateLimitValue::Valid(v),
            None => RateLimitValue::Unknown,
        }
    } else {
        match values[0] {
            None => RateLimitValue::Invalid,
            Some(text) => match count_of(text) {
                None => RateLimitValue::Invalid,
                Some(v) => if selected is Some && selected.unwrap() != v {
                    RateLimitValue::Invalid
                } else {
                    consistent_count(values.drop_first(), Some(v))
                },
            },
        }
    }
}

/// `value` with a valid count mapped by `f`.
pub open spec fn map_valid<T>(value: RateLimitValue<u64>, f: spec_fn(u64) -> T) -> RateLimitValue<T> {
    match value {
        RateLimitValue::Unknown => RateLimitValue::Unknown,
        RateLimitValue::Valid(v) => RateLimitValue::Valid(f(v)),
        RateLimitValue::Invalid => RateLimitValue::Invalid,
    }
}

/// A delay in seconds, at most one day.
pub open spec fn bounded_delay(seconds: u64) -> u64 {
    if seconds < MAX_RESET_DELAY_SECONDS {
        seconds
    } else {
        MAX_RESET_DELAY_SECONDS
    }
}

/// The reset instant for a Unix-seconds value observed at `now`: the target instant, at
/// most one day after `now` and never before it; `now` when the target or the result is
/// past the clock's range.
pub open spec fn reset_instant(seconds: u64, now: u64) -> u64 {
    let target = if seconds <= MAX_INSTANT_SECONDS {
        seconds
    } else {
        now
    };
    let delay = if target > now {
        (target - now) as u64
    } else {
        0
    };
    let d = bounded_delay(delay);
    if now + d <= MAX_INSTANT_SECONDS {
        (now + d) as u64
    } else {
        now
    }
}

/// The fields an observation gathers from provider headers.
pub struct ObserveState {
    pub requests: RateLimitValue<u64>,
    pub units: RateLimitValue<RateLimitQuota>,
    pub reset: RateLimitValue<RateLimitReset>,
    pub provider_present: bool,
}

/// One declaration applied to the gathered state.
pub open spec fn observe_step(
    state: ObserveState,
    declaration: (Seq<char>, RateLimitHeaderKind),
    headers: Seq<(Seq<char>, Option<Seq<char>>)>,
    now: u64,
) -> ObserveState {
    let values = values_for(headers, declaration.0);
    if values.len() == 0 {
        state
    } else {
        let count = consistent_count(values, None);
        let present = ObserveState { provider_present: true, ..state };
        match declaration.1 {
            RateLimitHeaderKind::RemainingRequests => ObserveState {
                requests: merged(present.requests, count),
                ..present
            },
            RateLimitHeaderKind::RemainingUnits(unit) => ObserveState {
                units: merged(present.units, map_valid(count, |v: u64| quota_of(v, unit))),
                ..present
            },
            RateLimitHeaderKind::ResetAfterSeconds => ObserveState {
                reset: merged(
                    present.reset,
                    map_valid(count, |v: u64| RateLimitReset::After(bounded_delay(v))),
                ),
                ..present
            },
            RateLimitHeaderKind::ResetAtUnixSeconds => ObserveState {
                reset: merged(
                    present.reset,
                    map_valid(count, |v: u64| RateLimitReset::At(reset_instant(v, now))),
                ),
                ..present
            },
            _ => present,
        }
    }
}

/// All declarations applied in order.
pub open spec fn observe_all(
    state: ObserveState,
    declarations: Seq<(Seq<char>, RateLimitHeaderKind)>,
    headers: Seq<(Seq<char>, Option<Seq<char>>)>,
    now: u64,
) -> ObserveState
    decreases declarations.len(),
{
    if declarations.len() == 0 {
        state
    } else {
        observe_all(
            observe_step(state, declarations[0], headers, now),
            declarations.drop_first(),
            headers,
            now,
        )
    }
}

/// The observation of one HTTP attempt: status, standard retry delay and the typed
/// provider declarations read from its headers.
pub open spec fn observation_of(
    status: u16,
    declarations: Seq<(Seq<char>, RateLimitHeaderKind)>,
    headers: Seq<(Seq<char>, Option<Seq<char>>)>,
    retry_after: RateLimitValue<u64>,
    now: u64,
) -> ObservationView {
    let s = observe_all(
        ObserveState {
            requests: RateLimitValue::Unknown,
            units: RateLimitValue::Unknown,
            reset: RateLimitValue::Unknown,
            provider_present: false,
        },
        declarations,
        headers,
        now,
    );
    let standard_present = status == 429 || !(retry_after is Unknown);
    ObservationView {
        status_is_rate_limited: status == 429,
        retry_after,
        remaining_requests: s.requests,
        remaining_units: s.units,
        reset: s.reset,
        source: if standard_present && s.provider_present {
            RateLimitSourceKind::StandardAndProviderProfile
        } else if s.provider_present {
            RateLimitSourceKind::ProviderProfile
        } else {
            RateLimitSourceKind::Standard
        },
    }
}

fn header_values(headers: &Vec<(String, Option<String>)>, name: &str) -> (r: Vec<Option<String>>)
    ensures
        r@.len() == values_for(header_views(headers@), name@).len(),
        forall|i: int|
            0 <= i < r@.len() ==> (match #[trigger] r@[i] {
                Some(v) => Some(v@),
                None => None,
            }) == values_for(header_views(headers@), name@)[i],
{
    let ghost views = header_views(headers@);
    let mut out: Vec<Option<String>> = Vec::new();
    let mut i: usize = 0;
    while i < headers.len()
        invariant
            views == header_views(headers@),
            i <= headers@.len(),
            out@.len() == values_for(views.take(i as int), name@).len(),
            forall|j: int|
                0 <= j < out@.len() ==> (match #[trigger] out@[j] {
                    Some(v) => Some(v@),
                    None => None,
                }) == values_for(views.take(i as int), name@)[j],
        decreases headers.len() - i,
    {
        proof {
            assert(views.take(i + 1).drop_last() =~= views.take(i as int));
            assert(views.take(i + 1).last() == views[i as int]);
        }
        if str_eq(headers[i].0.as_str(), name) {
            let value = match &headers[i].1 {
                Some(v) => Some(v.clone()),
                None => None,
            };
            out.push(value);
        }
        i = i + 1;
    }
    proof {
        assert(views.take(i as int) =~= views);
    }
    out
}

/// The views of optional header values.
pub open spec fn value_views(values: Seq<Option<String>>) -> Seq<Option<Seq<char>>> {
    values.map_values(
        |v: Option<String>|
            match v {
                Some(t) => Some(t@),
                None => None,
            },
    )
}

fn consistent(values: &Vec<Option<String>>) -> (r: RateLimitValue<u64>)
    ensures
        r == consistent_count(value_views(values@), None),
{
    let ghost views = value_views(values@);
    let mut selected: Option<u64> = None;
    let mut i: usize = 0;
    proof {
        assert(views.skip(0) =~= views);
    }
    while i < values.len()
        invariant
            views == value_views(values@),
            i <= values@.len(),
            views.len() == values@.len(),
            forall|j: int|
                0 <= j < values@.len() ==> #[trigger] views[j] == match values@[j] {
                    Some(t) => Some(t@),
                    None => None,
                },
            consistent_count(views, None) == consistent_count(views.skip(i as int), selected),
        decreases values.len() - i,
    {
        proof {
            assert(views.skip(i as int)[0] == views[i as int]);
            assert(views.skip(i as int).drop_first() =~= views.skip(i + 1));
        }
        let value = match &values[i] {
            None => {
                proof {
                    assert(views[i as int] is None);
                    assert(consistent_count(views.skip(i as int), selected) is Invalid);
                }
                return RateLimitValue::Invalid;
            },
            Some(raw) => match parse_count(raw.as_str()) {
                None => {
                    proof {
                        assert(views[i as int] == Some(raw@));
                        assert(consistent_count(views.skip(i as int), selected) is Invalid);
                    }
                    return RateLimitValue::Invalid;
                },
                Some(v) => {
                    proof {
                        assert(views[i as int] == Some(raw@));
                    }
                    v
                },
            },
        };
        if let Some(s) = selected {
            if s != value {
                return RateLimitValue::Invalid;
            }
        }
        selected = Some(value);
        i = i + 1;
    }
    proof {
        assert(views.skip(i as int).len() == 0);
    }
    match selected {
        Some(v) => RateLimitValue::Valid(v),
        None => RateLimitValue::Unknown,
    }
}

fn instant_after(seconds: u64, now: u64) -> (r: u64)
    ensures
        r == reset_instant(seconds, now),
{
    let target = if seconds <= MAX_INSTANT_SECONDS {
        seconds
    } else {
        now
    };
    let delay = if target > now {
        target - now
    } else {
        0
    };
    let d = if delay < MAX_RESET_DELAY_SECONDS {
        delay
    } else {
        MAX_RESET_DELAY_SECONDS
    };
    if now <= MAX_INSTANT_SECONDS - d {
        now + d
    } else {
        now
    }
}

/// Parses the rate-limit metadata of one HTTP attempt from its status, its headers (each
/// a lower-case name and, when it is visible ASCII text, its value), the standard
/// `Retry-After` state in seconds and the observation instant in Unix seconds.
pub fn observe_rate_limit(
    status: u16,
    headers: &Vec<(String, Option<String>)>,
    policy: &RateLimitPolicy,
    retry_after: RateLimitValue<u64>,
    now: u64,
) -> (r: RateLimitObservation)
    ensures
        r@ == observation_of(status, policy.spec_headers(), header_views(headers@), retry_after, now),
{
    let ghost declarations = policy.spec_headers();
    let ghost views = header_views(headers@);
    let mut state_requests: RateLimitValue<u64> = RateLimitValue::Unknown;
    let mut state_units: RateLimitValue<RateLimitQuota> = RateLimitValue::Unknown;
    let mut state_reset: RateLimitValue<RateLimitReset> = RateLimitValue::Unknown;
    let mut provider_present = false;
    let ghost start = ObserveState {
        requests: RateLimitValue::Unknown,
        units: RateLimitValue::Unknown,
        reset: RateLimitValue::Unknown,
        provider_present: false,
    };
    let mut i: usize = 0;
    proof {
        assert(declarations.skip(0) =~= declarations);
    }
    while i < policy.headers.len()
        invariant
            declarations == policy.spec_headers(),
            views == header_views(headers@),
            declarations.len() == policy.headers@.len(),
            i <= policy.headers@.len(),
            observe_all(start, declarations, views, now) == observe_all(
                ObserveState {
                    requests: state_requests,
                    units: state_units,
                    reset: state_reset,
                    provider_present,
                },
                declarations.skip(i as int),
                views,
                now,
            ),
        decreases policy.headers.len() - i,
    {
        let spec = &policy.headers[i];
        proof {
            assert(declarations.skip(i as int)[0] == declarations[i as int]);
            assert(declarations[i as int] == (spec.spec_name(), spec.spec_kind()));
            assert(declarations.skip(i as int).drop_first() =~= declarations.skip(i + 1));
        }
        let values = header_values(headers, spec.name.as_str());
        proof {
            assert(value_views(values@) =~= values_for(views, spec.spec_name()));
        }
        if values.len() > 0 {
            provider_present = true;
            let count = consistent(&values);
            match spec.kind {
                RateLimitHeaderKind::RemainingRequests => {
                    state_requests = merge_count(state_requests, count);
                },
                RateLimitHeaderKind::RemainingUnits(unit) => {
                    let value = match count {
                        RateLimitValue::Unknown => RateLimitValue::Unknown,
                        RateLimitValue::Valid(v) => RateLimitValue::Valid(
                            RateLimitQuota { remaining: v, unit },
                        ),
                        RateLimitValue::Invalid => RateLimitValue::Invalid,
                    };
                    state_units = merge_quota(state_units, value);
                },
                RateLimitHeaderKind::ResetAfterSeconds => {
                    let value = match count {
                        RateLimitValue::Unknown => RateLimitValue::Unknown,
                        RateLimitValue::Valid(v) => RateLimitValue::Valid(
                            RateLimitReset::After(
                                if v < MAX_RESET_DELAY_SECONDS {
                                    v
                                } else {
                                    MAX_RESET_DELAY_SECONDS
                                },
                            ),
                        ),
                        RateLimitValue::Invalid => RateLimitValue::Invalid,
                    };
                    state_reset = merge_reset(state_reset, value);
                },
                RateLimitHeaderKind::ResetAtUnixSeconds => {
                    let value = match count {
                        RateLimitValue::Unknown => RateLimitValue::Unknown,
                        RateLimitValue::Valid(v) => RateLimitValue::Valid(
                            RateLimitReset::At(instant_after(v, now)),
                        ),
                        RateLimitValue::Invalid => RateLimitValue::Invalid,
                    };
                    state_reset = merge_reset(state_reset, value);
                },
                _ => {},
            }
        }
        i = i + 1;
    }
    let standard_present = status == 429 || !(match retry_after {
        RateLimitValue::Unknown => true,
        _ => false,
    });
    let source = if standard_present && provider_present {
        RateLimitSourceKind::StandardAndProviderProfile
    } else if provider_present {
        RateLimitSourceKind::ProviderProfile
    } else {
        RateLimitSourceKind::Standard
    };
    RateLimitObservation {
        status_is_rate_limited: status == 429,
        retry_after,
        remaining_requests: state_requests,
        remaining_units: state_units,
        reset: state_reset,
        source,
    }
}

} // verus!
