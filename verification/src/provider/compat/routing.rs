//! Provider-scoped typed routing for aggregation gateways.
//!
//! A routing policy is resolved from profile defaults and an optional request patch. Hard
//! profile constraints can only be tightened by the request layer, never relaxed.

use vstd::prelude::*;
use vstd::std_specs::cmp::PartialEqSpecImpl;

use crate::domain::PolicySource;
use crate::error::{is_validation, validation, LlmError, ValidationError, ValidationReason};
use crate::text::{
    all_chars_in, all_in_set, boundary_whitespace, has_boundary_whitespace, CharSet,
};

verus! {

/// An upstream identifier is valid: non-empty, at most 128 characters, no boundary
/// white space, and only ASCII letters, digits, `-`, `_`, `.`, `/` and spaces.
pub open spec fn upstream_ok(v: Seq<char>) -> bool {
    &&& v.len() > 0
    &&& v.len() <= 128
    &&& !has_boundary_whitespace(v)
    &&& all_in_set(v, CharSet::Upstream)
}

/// Stable upstream identifier accepted by a provider routing contract.
#[derive(Debug, Eq)]
pub struct UpstreamId(String);

impl View for UpstreamId {
    type V = Seq<char>;

    closed spec fn view(&self) -> Seq<char> {
        self.0@
    }
}

impl Clone for UpstreamId {
    fn clone(&self) -> (r: Self)
        ensures
            r == *self,
    {
        UpstreamId(self.0.clone())
    }
}

impl PartialEq for UpstreamId {
    fn eq(&self, other: &Self) -> (r: bool) {
        self.0 == other.0
    }
}

impl PartialEqSpecImpl for UpstreamId {
    open spec fn obeys_eq_spec() -> bool {
        true
    }

    open spec fn eq_spec(&self, other: &Self) -> bool {
        self@ == other@
    }
}

impl UpstreamId {
    /// Creates a bounded, printable upstream identifier.
    pub fn new(value: &str) -> (r: Result<Self, ValidationError>)
        ensures
            match r {
                Ok(id) => upstream_ok(value@) && id@ == value@,
                Err(e) => !upstream_ok(value@) && e.spec_field() == "routing.upstream"@
                    && e.spec_reason() == ValidationReason::InvalidIdentifier && e.spec_summary()
                    == "upstream must be bounded printable ASCII"@,
            },
    {
        let n = value.unicode_len();
        if n == 0 || n > 128 || boundary_whitespace(value) || !all_chars_in(
            value,
            CharSet::Upstream,
        ) {
            return Err(
                ValidationError::new(
                    "routing.upstream",
                    ValidationReason::InvalidIdentifier,
                    "upstream must be bounded printable ASCII",
                ),
            );
        }
        Ok(UpstreamId(value.to_owned()))
    }

    /// Returns the validated wire identifier.
    pub fn as_str(&self) -> (r: &str)
        ensures
            r@ == self@,
    {
        self.0.as_str()
    }

    fn same(&self, other: &Self) -> (r: bool)
        ensures
            r == (self@ == other@),
    {
        self.0 == other.0
    }
}

/// A region identifier is valid: non-empty, at most 64 characters, no boundary white
/// space, and only lowercase ASCII letters, digits, `-` and `_`.
pub open spec fn region_ok(v: Seq<char>) -> bool {
    &&& v.len() > 0
    &&& v.len() <= 64
    &&& !has_boundary_whitespace(v)
    &&& all_in_set(v, CharSet::Region)
}

/// Stable region or residency identifier.
#[derive(Debug, Eq)]
pub struct RoutingRegion(String);

impl View for RoutingRegion {
    type V = Seq<char>;

    closed spec fn view(&self) -> Seq<char> {
        self.0@
    }
}

impl Clone for RoutingRegion {
    fn clone(&self) -> (r: Self)
        ensures
            r == *self,
    {
        RoutingRegion(self.0.clone())
    }
}

impl PartialEq for RoutingRegion {
    fn eq(&self, other: &Self) -> (r: bool) {
        self.0 == other.0
    }
}

impl PartialEqSpecImpl for RoutingRegion {
    open spec fn obeys_eq_spec() -> bool {
        true
    }

    open spec fn eq_spec(&self, other: &Self) -> bool {
        self@ == other@
    }
}

impl RoutingRegion {
    /// Creates a lowercase region identifier.
    pub fn new(value: &str) -> (r: Result<Self, ValidationError>)
        ensures
            match r {
                Ok(region) => region_ok(value@) && region@ == value@,
                Err(e) => !region_ok(value@) && e.spec_field() == "routing.region"@
                    && e.spec_reason() == ValidationReason::InvalidIdentifier && e.spec_summary()
                    == "region must be bounded lowercase ASCII"@,
            },
    {
        let n = value.unicode_len();
        let valid = n != 0 && n <= 64 && !boundary_whitespace(value) && all_chars_in(
            value,
            CharSet::Region,
        );
        if !valid {
            return Err(
                ValidationError::new(
                    "routing.region",
                    ValidationReason::InvalidIdentifier,
                    "region must be bounded lowercase ASCII",
                ),
            );
        }
        Ok(RoutingRegion(value.to_owned()))
    }

    /// Returns the validated identifier.
    pub fn as_str(&self) -> (r: &str)
        ensures
            r@ == self@,
    {
        self.0.as_str()
    }

    fn same(&self, other: &Self) -> (r: bool)
        ensures
            r == (self@ == other@),
    {
        self.0 == other.0
    }
}

/// Whether a routing constraint is mandatory or merely preferred.
#[derive(Clone, Copy, Debug, PartialEq, Eq, Structural)]
pub enum ConstraintStrength {
    /// Failure to satisfy the constraint must fail closed.
    Hard,
    /// The provider may use the value as a non-binding preference.
    Preferred,
}

/// Typed data-retention requirement.
#[derive(Clone, Copy, Debug, PartialEq, Eq, Structural)]
pub enum DataRetention {
    /// No additional retention constraint.
    Allowed,
    /// Providers that collect request data must be excluded.
    Denied,
    /// Zero-data-retention processing is required.
    ZeroDataRetention,
}

/// Strictness rank of a retention requirement: `Allowed < Denied < ZeroDataRetention`.
pub open spec fn retention_rank(r: DataRetention) -> int {
    match r {
        DataRetention::Allowed => 0,
        DataRetention::Denied => 1,
        DataRetention::ZeroDataRetention => 2,
    }
}

impl DataRetention {
    /// Returns the strictness rank of this requirement.
    pub fn strictness(self) -> (r: u8)
        ensures
            r == retention_rank(self),
    {
        match self {
            DataRetention::Allowed => 0,
            DataRetention::Denied => 1,
            DataRetention::ZeroDataRetention => 2,
        }
    }
}

/// Provider ordering preference supported by the reviewed gateway contract.
#[derive(Clone, Copy, Debug, PartialEq, Eq, Structural)]
pub enum RoutingSort {
    /// Prefer lower estimated cost.
    Price,
    /// Prefer lower observed latency.
    Latency,
    /// Prefer higher observed throughput.
    Throughput,
}

/// Soft dimensions that fallback may relax.
///
/// Upstream allowlists, region/residency, and retention are deliberately absent.
#[derive(Clone, Copy, Debug, PartialEq, Eq, Structural, PartialOrd, Ord)]
pub enum FallbackDimension {
    /// Relax the price preference.
    Price,
    /// Relax the latency preference.
    Latency,
    /// Relax the throughput preference.
    Throughput,
}

/// Declaration order of fallback dimensions.
pub open spec fn dimension_rank(d: FallbackDimension) -> int {
    match d {
        FallbackDimension::Price => 0,
        FallbackDimension::Latency => 1,
        FallbackDimension::Throughput => 2,
    }
}

/// Fallback behavior separated from the dimensions it may relax.
#[derive(Clone, Copy, Debug, PartialEq, Eq, Structural)]
pub struct RoutingFallback {
    enabled: bool,
    relax_price: bool,
    relax_latency: bool,
    relax_throughput: bool,
}

impl RoutingFallback {
    pub closed spec fn spec_enabled(self) -> bool {
        self.enabled
    }

    /// The set of dimensions this fallback may relax.
    pub closed spec fn spec_relaxations(self) -> Set<FallbackDimension> {
        Set::new(
            |d: FallbackDimension|
                match d {
                    FallbackDimension::Price => self.relax_price,
                    FallbackDimension::Latency => self.relax_latency,
                    FallbackDimension::Throughput => self.relax_throughput,
                },
        )
    }

    /// Creates fallback behavior; duplicate dimensions collapse into one.
    pub fn new(enabled: bool, relaxations: Vec<FallbackDimension>) -> (r: Self)
        ensures
            r.spec_enabled() == enabled,
            forall|d: FallbackDimension| #[trigger]
                r.spec_relaxations().contains(d) <==> relaxations@.contains(d),
    {
        let mut fallback = RoutingFallback {
            enabled,
            relax_price: false,
            relax_latency: false,
            relax_throughput: false,
        };
        let mut i: usize = 0;
        while i < relaxations.len()
            invariant
                i <= relaxations@.len(),
                fallback.enabled == enabled,
                fallback.relax_price <==> relaxations@.subrange(0, i as int).contains(
                    FallbackDimension::Price,
                ),
                fallback.relax_latency <==> relaxations@.subrange(0, i as int).contains(
                    FallbackDimension::Latency,
                ),
                fallback.relax_throughput <==> relaxations@.subrange(0, i as int).contains(
                    FallbackDimension::Throughput,
                ),
            decreases relaxations.len() - i,
        {
            let d = relaxations[i];
            proof {
                let next = relaxations@.subrange(0, i + 1);
                let prev = relaxations@.subrange(0, i as int);
                assert(next =~= prev.push(d));
                assert forall|x: FallbackDimension| next.contains(x) <==> (prev.contains(x) || x
                    == d) by {
                    if next.contains(x) {
                        let k = choose|k: int| 0 <= k < next.len() && next[k] == x;
                        if k < prev.len() {
                            assert(prev[k] == x);
                        }
                    }
                    if prev.contains(x) {
                        let k = choose|k: int| 0 <= k < prev.len() && prev[k] == x;
                        assert(next[k] == x);
                    }
                    if x == d {
                        assert(next[i as int] == x);
                    }
                }
            }
            match d {
                FallbackDimension::Price => fallback.relax_price = true,
                FallbackDimension::Latency => fallback.relax_latency = true,
                FallbackDimension::Throughput => fallback.relax_throughput = true,
            }
            i = i + 1;
        }
        proof {
            assert(relaxations@.subrange(0, relaxations@.len() as int) =~= relaxations@);
        }
        fallback
    }

    /// Returns whether provider fallback is enabled.
    pub fn enabled(&self) -> (r: bool)
        ensures
            r == self.spec_enabled(),
    {
        self.enabled
    }

    /// Returns the relaxable soft dimensions in their declaration order, each once.
    pub fn relaxations(&self) -> (r: Vec<FallbackDimension>)
        ensures
            forall|d: FallbackDimension| #[trigger]
                r@.contains(d) <==> self.spec_relaxations().contains(d),
            forall|i: int, j: int| 0 <= i < j < r@.len() ==> dimension_rank(r@[i]) < dimension_rank(r@[j]),
    {
        let mut out: Vec<FallbackDimension> = Vec::new();
        if self.relax_price {
            out.push(FallbackDimension::Price);
        }
        if self.relax_latency {
            out.push(FallbackDimension::Latency);
        }
        if self.relax_throughput {
            out.push(FallbackDimension::Throughput);
        }
        proof {
            assert forall|d: FallbackDimension| #[trigger]
                out@.contains(d) <==> self.spec_relaxations().contains(d) by {
                if self.spec_relaxations().contains(d) {
                    match d {
                        FallbackDimension::Price => assert(out@[0] == d),
                        FallbackDimension::Latency => {
                            if self.relax_price {
                                assert(out@[1] == d);
                            } else {
                                assert(out@[0] == d);
                            }
                        },
                        FallbackDimension::Throughput => {
                            assert(out@[out@.len() - 1] == d);
                        },
                    }
                }
            }
        }
        out
    }
}

/// Stable fields used by value-free routing provenance.
#[derive(Clone, Copy, Debug, PartialEq, Eq, Structural)]
pub enum RoutingField {
    /// Allowed upstream set.
    AllowedUpstreams,
    /// Denied upstream set.
    DeniedUpstreams,
    /// Provider order.
    ProviderOrder,
    /// Region/residency requirement.
    Region,
    /// Data-retention requirement.
    DataRetention,
    /// Fallback behavior.
    Fallback,
    /// Provider sort preference.
    Sort,
}

/// The set of identifiers named by `v`.
pub open spec fn ids_view(v: Seq<UpstreamId>) -> Set<Seq<char>> {
    Set::new(|x: Seq<char>| exists|i: int| 0 <= i < v.len() && v[i]@ == x)
}

/// The identifiers of `v` in order.
pub open spec fn ids_seq(v: Seq<UpstreamId>) -> Seq<Seq<char>> {
    v.map_values(|u: UpstreamId| u@)
}

/// No identifier occurs twice in `s`.
pub open spec fn no_duplicates(s: Seq<Seq<char>>) -> bool {
    forall|i: int, j: int| 0 <= i < j < s.len() ==> s[i] != s[j]
}

/// Abstract value of a sparse routing patch.
pub struct PatchView {
    pub source: Option<PolicySource>,
    pub allowed: Option<Set<Seq<char>>>,
    pub denied: Option<Set<Seq<char>>>,
    pub order: Option<Seq<Seq<char>>>,
    pub region: Option<(Seq<char>, ConstraintStrength)>,
    pub data_retention: Option<(DataRetention, ConstraintStrength)>,
    pub fallback: Option<RoutingFallback>,
    pub sort: Option<RoutingSort>,
}

/// Abstract value of a resolved routing policy.
pub struct RoutingView {
    pub allowed: Set<Seq<char>>,
    pub denied: Set<Seq<char>>,
    pub order: Seq<Seq<char>>,
    pub region: Option<(Seq<char>, ConstraintStrength)>,
    pub data_retention: Option<(DataRetention, ConstraintStrength)>,
    pub fallback: Option<RoutingFallback>,
    pub sort: Option<RoutingSort>,
    pub provenance: Map<RoutingField, PolicySource>,
}

/// The field path, reason and summary of a routing failure.
pub type RoutingFailure = (Seq<char>, ValidationReason, Seq<char>);

pub open spec fn conflict_failure(field: Seq<char>, summary: Seq<char>) -> RoutingFailure {
    (field, ValidationReason::Conflict, summary)
}

/// `e` reports exactly the failure `f`.
pub open spec fn reports(e: LlmError, f: RoutingFailure) -> bool {
    is_validation(e, f.0, f.1, f.2)
}

/// The empty resolved routing policy.
pub open spec fn empty_routing() -> RoutingView {
    RoutingView {
        allowed: Set::empty(),
        denied: Set::empty(),
        order: Seq::empty(),
        region: None,
        data_retention: None,
        fallback: None,
        sort: None,
        provenance: Map::empty(),
    }
}

/// The patch declares no routing field (its source alone does not count).
pub open spec fn patch_is_empty(p: PatchView) -> bool {
    &&& p.allowed is None
    &&& p.denied is None
    &&& p.order is None
    &&& p.region is None
    &&& p.data_retention is None
    &&& p.fallback is None
    &&& p.sort is None
}

/// Declaration layer of a patch; a patch without an explicit source is request-scoped.
pub open spec fn patch_source(p: PatchView) -> PolicySource {
    match p.source {
        Some(s) => s,
        None => PolicySource::Request,
    }
}

/// Allowed upstreams: an empty set is rejected; a request narrows a non-empty profile set
/// to the intersection, otherwise the patch replaces it.
pub open spec fn step_allowed(r: RoutingView, p: PatchView, request_layer: bool) -> Result<
    RoutingView,
    RoutingFailure,
> {
    match p.allowed {
        None => Ok(r),
        Some(allowed) => if allowed == Set::<Seq<char>>::empty() {
            Err(conflict_failure("routing.allowed"@, "allowed upstream set cannot be empty"@))
        } else {
            Ok(
                RoutingView {
                    allowed: if request_layer && r.allowed != Set::<Seq<char>>::empty() {
                        r.allowed.intersect(allowed)
                    } else {
                        allowed
                    },
                    provenance: r.provenance.insert(RoutingField::AllowedUpstreams, patch_source(p)),
                    ..r
                },
            )
        },
    }
}

/// Denied upstreams accumulate across layers.
pub open spec fn step_denied(r: RoutingView, p: PatchView) -> RoutingView {
    match p.denied {
        None => r,
        Some(denied) => RoutingView {
            denied: r.denied.union(denied),
            provenance: r.provenance.insert(RoutingField::DeniedUpstreams, patch_source(p)),
            ..r
        },
    }
}

/// Provider order replaces the previous order and must not repeat an upstream.
pub open spec fn step_order(r: RoutingView, p: PatchView) -> Result<RoutingView, RoutingFailure> {
    match p.order {
        None => Ok(r),
        Some(order) => if !no_duplicates(order) {
            Err(conflict_failure("routing.order"@, "provider order contains duplicates"@))
        } else {
            Ok(
                RoutingView {
                    order,
                    provenance: r.provenance.insert(RoutingField::ProviderOrder, patch_source(p)),
                    ..r
                },
            )
        },
    }
}

/// A request cannot replace a hard region with a different region or strength.
pub open spec fn step_region(r: RoutingView, p: PatchView, request_layer: bool) -> Result<
    RoutingView,
    RoutingFailure,
> {
    match p.region {
        None => Ok(r),
        Some(region) => if request_layer && r.region is Some && r.region.unwrap().1
            == ConstraintStrength::Hard && region != r.region.unwrap() {
            Err(
                conflict_failure(
                    "routing.region"@,
                    "request cannot replace a hard profile region constraint"@,
                ),
            )
        } else {
            Ok(
                RoutingView {
                    region: Some(region),
                    provenance: r.provenance.insert(RoutingField::Region, patch_source(p)),
                    ..r
                },
            )
        },
    }
}

/// A request cannot weaken a hard retention requirement: it must stay hard and at least as
/// strict.
pub open spec fn step_retention(r: RoutingView, p: PatchView, request_layer: bool) -> Result<
    RoutingView,
    RoutingFailure,
> {
    match p.data_retention {
        None => Ok(r),
        Some(retention) => if request_layer && r.data_retention is Some
            && r.data_retention.unwrap().1 == ConstraintStrength::Hard && (retention.1
            != ConstraintStrength::Hard || retention_rank(retention.0) < retention_rank(
            r.data_retention.unwrap().0,
        )) {
            Err(
                conflict_failure(
                    "routing.data_retention"@,
                    "request cannot relax a hard profile retention constraint"@,
                ),
            )
        } else {
            Ok(
                RoutingView {
                    data_retention: Some(retention),
                    provenance: r.provenance.insert(RoutingField::DataRetention, patch_source(p)),
                    ..r
                },
            )
        },
    }
}

/// A request cannot enable fallback that the profile disabled.
pub open spec fn step_fallback(r: RoutingView, p: PatchView, request_layer: bool) -> Result<
    RoutingView,
    RoutingFailure,
> {
    match p.fallback {
        None => Ok(r),
        Some(fallback) => if request_layer && r.fallback is Some && !r.fallback.unwrap().spec_enabled()
            && fallback.spec_enabled() {
            Err(
                conflict_failure(
                    "routing.fallback"@,
                    "request cannot enable fallback disabled by profile policy"@,
                ),
            )
        } else {
            Ok(
                RoutingView {
                    fallback: Some(fallback),
                    provenance: r.provenance.insert(RoutingField::Fallback, patch_source(p)),
                    ..r
                },
            )
        },
    }
}

/// Sort preference replaces the previous one.
pub open spec fn step_sort(r: RoutingView, p: PatchView) -> RoutingView {
    match p.sort {
        None => r,
        Some(sort) => RoutingView {
            sort: Some(sort),
            provenance: r.provenance.insert(RoutingField::Sort, patch_source(p)),
            ..r
        },
    }
}

/// Applies one layer to a resolved policy, field by field in a fixed order; the first
/// violation wins.
pub open spec fn spec_apply_patch(r: RoutingView, p: PatchView, request_layer: bool) -> Result<
    RoutingView,
    RoutingFailure,
> {
    if patch_is_empty(p) {
        Ok(r)
    } else {
        match step_allowed(r, p, request_layer) {
            Err(f) => Err(f),
            Ok(r1) => match step_order(step_denied(r1, p), p) {
                Err(f) => Err(f),
                Ok(r3) => match step_region(r3, p, request_layer) {
                    Err(f) => Err(f),
                    Ok(r4) => match step_retention(r4, p, request_layer) {
                        Err(f) => Err(f),
                        Ok(r5) => match step_fallback(r5, p, request_layer) {
                            Err(f) => Err(f),
                            Ok(r6) => Ok(step_sort(r6, p)),
                        },
                    },
                },
            },
        }
    }
}

/// The policy one layer leaves behind: every step's result up to the first step that
/// refuses, which changes nothing; the whole result when no step refuses.
pub open spec fn patch_reached(r: RoutingView, p: PatchView, request_layer: bool) -> RoutingView {
    if patch_is_empty(p) {
        r
    } else {
        match step_allowed(r, p, request_layer) {
            Err(_) => r,
            Ok(r1) => {
                let r2 = step_denied(r1, p);
                match step_order(r2, p) {
                    Err(_) => r2,
                    Ok(r3) => match step_region(r3, p, request_layer) {
                        Err(_) => r3,
                        Ok(r4) => match step_retention(r4, p, request_layer) {
                            Err(_) => r4,
                            Ok(r5) => match step_fallback(r5, p, request_layer) {
                                Err(_) => r5,
                                Ok(r6) => step_sort(r6, p),
                            },
                        },
                    },
                }
            },
        }
    }
}

/// A layer's non-empty allowlist `a` narrows a request's view and sets a profile's: a
/// request over a non-empty allowlist `P` leaves exactly `P` ∩ `a` (never anything outside
/// `P`), and otherwise the allowlist becomes `a`; an empty allowlist is refused. This holds
/// whether or not a later step of the layer refuses.
pub proof fn lemma_allowlist_layering(r: RoutingView, p: PatchView, request_layer: bool, a: Set<Seq<char>>)
    requires
        p.allowed == Some(a),
    ensures
        a == Set::<Seq<char>>::empty() ==> spec_apply_patch(r, p, request_layer) is Err
            && patch_reached(r, p, request_layer) == r,
        a != Set::<Seq<char>>::empty() && request_layer && r.allowed != Set::<Seq<char>>::empty() ==> {
            let left = patch_reached(r, p, request_layer).allowed;
            &&& forall|u: Seq<char>| #[trigger] left.contains(u) <==> (r.allowed.contains(u) && a.contains(u))
            &&& left.subset_of(r.allowed)
        },
        a != Set::<Seq<char>>::empty() && !(request_layer && r.allowed != Set::<Seq<char>>::empty())
            ==> patch_reached(r, p, request_layer).allowed == a,
        spec_apply_patch(r, p, request_layer) matches Ok(v) ==> v.allowed == patch_reached(
            r,
            p,
            request_layer,
        ).allowed,
{
}

/// Resolving a profile allowlist `P` and a request allowlist `A`, both non-empty, gives
/// exactly the upstreams in both: a request can narrow the profile allowlist but never
/// widen it.
pub proof fn lemma_request_never_widens_allowlist(
    defaults: PatchView,
    request: PatchView,
    region_wire_supported: bool,
    profile_allowed: Set<Seq<char>>,
    request_allowed: Set<Seq<char>>,
)
    requires
        defaults.allowed == Some(profile_allowed),
        request.allowed == Some(request_allowed),
        profile_allowed != Set::<Seq<char>>::empty(),
        request_allowed != Set::<Seq<char>>::empty(),
    ensures
        spec_resolve(defaults, Some(request), region_wire_supported) matches Ok(v) ==> (forall|u: Seq<char>|
            #[trigger] v.allowed.contains(u) <==> (profile_allowed.contains(u) && request_allowed.contains(u)))
            && v.allowed.subset_of(profile_allowed),
{
    lemma_allowlist_layering(empty_routing(), defaults, false, profile_allowed);
    if let Ok(r1) = spec_apply_patch(empty_routing(), defaults, false) {
        lemma_allowlist_layering(r1, request, true, request_allowed);
    }
}

/// Applying a layer, whether it succeeds or is refused, never removes a denied upstream.
pub proof fn lemma_patch_keeps_denied(r: RoutingView, p: PatchView, request_layer: bool)
    ensures
        r.denied.subset_of(patch_reached(r, p, request_layer).denied),
{
}

/// A request that would relax a hard retention requirement is refused, and the stored
/// retention requirement is left as it was.
pub proof fn lemma_refused_retention_unchanged(
    r: RoutingView,
    p: PatchView,
    existing: DataRetention,
    requested: DataRetention,
    strength: ConstraintStrength,
)
    requires
        r.data_retention == Some((existing, ConstraintStrength::Hard)),
        p.data_retention == Some((requested, strength)),
        strength != ConstraintStrength::Hard || retention_rank(requested) < retention_rank(existing),
    ensures
        spec_apply_patch(r, p, true) is Err,
        patch_reached(r, p, true).data_retention == r.data_retention,
{
}

/// Cross-field checks of a fully resolved policy; the first violation wins.
pub open spec fn spec_validate_resolved(r: RoutingView, region_wire_supported: bool) -> Option<
    RoutingFailure,
> {
    if !r.allowed.disjoint(r.denied) {
        Some(conflict_failure("routing.upstreams"@, "allowed and denied upstream sets overlap"@))
    } else if r.allowed != Set::<Seq<char>>::empty() && exists|i: int|
        0 <= i < r.order.len() && !r.allowed.contains(#[trigger] r.order[i]) {
        Some(
            conflict_failure(
                "routing.order"@,
                "provider order contains an upstream outside the allowlist"@,
            ),
        )
    } else if exists|i: int| 0 <= i < r.order.len() && r.denied.contains(#[trigger] r.order[i]) {
        Some(conflict_failure("routing.order"@, "provider order contains a denied upstream"@))
    } else if r.region is Some && !region_wire_supported {
        Some(
            (
                "routing.region"@,
                ValidationReason::CapabilityUnsupported,
                "profile has no reviewed region wire mapping"@,
            ),
        )
    } else {
        None
    }
}

/// Resolution of profile defaults followed by an optional request patch.
pub open spec fn spec_resolve(
    defaults: PatchView,
    request: Option<PatchView>,
    region_wire_supported: bool,
) -> Result<RoutingView, RoutingFailure> {
    match spec_apply_patch(empty_routing(), defaults, false) {
        Err(f) => Err(f),
        Ok(r1) => {
            let r2 = match request {
                None => Ok(r1),
                Some(p) => spec_apply_patch(r1, p, true),
            };
            match r2 {
                Err(f) => Err(f),
                Ok(r) => match spec_validate_resolved(r, region_wire_supported) {
                    Some(f) => Err(f),
                    None => Ok(r),
                },
            }
        },
    }
}

/// Sparse provider-scoped routing input used by profile and request layers.
#[derive(Debug)]
pub struct OpenRouterRoutingPatch {
    source: Option<PolicySource>,
    allowed: Option<Vec<UpstreamId>>,
    denied: Option<Vec<UpstreamId>>,
    order: Option<Vec<UpstreamId>>,
    region: Option<(RoutingRegion, ConstraintStrength)>,
    data_retention: Option<(DataRetention, ConstraintStrength)>,
    fallback: Option<RoutingFallback>,
    sort: Option<RoutingSort>,
}

pub open spec fn region_view(r: Option<(RoutingRegion, ConstraintStrength)>) -> Option<
    (Seq<char>, ConstraintStrength),
> {
    match r {
        None => None,
        Some((region, strength)) => Some((region@, strength)),
    }
}

impl View for OpenRouterRoutingPatch {
    type V = PatchView;

    closed spec fn view(&self) -> PatchView {
        PatchView {
            source: self.source,
            allowed: match self.allowed {
                None => None,
                Some(v) => Some(ids_view(v@)),
            },
            denied: match self.denied {
                None => None,
                Some(v) => Some(ids_view(v@)),
            },
            order: match self.order {
                None => None,
                Some(v) => Some(ids_seq(v@)),
            },
            region: region_view(self.region),
            data_retention: self.data_retention,
            fallback: self.fallback,
            sort: self.sort,
        }
    }
}

/// The patch with no source and no fields.
pub open spec fn empty_patch() -> PatchView {
    PatchView {
        source: None,
        allowed: None,
        denied: None,
        order: None,
        region: None,
        data_retention: None,
        fallback: None,
        sort: None,
    }
}

impl Default for OpenRouterRoutingPatch {
    fn default() -> (r: Self)
        ensures
            r@ == empty_patch(),
    {
        OpenRouterRoutingPatch {
            source: None,
            allowed: None,
            denied: None,
            order: None,
            region: None,
            data_retention: None,
            fallback: None,
            sort: None,
        }
    }
}

fn clone_ids(v: &Vec<UpstreamId>) -> (r: Vec<UpstreamId>)
    ensures
        r@ == v@,
{
    let mut out: Vec<UpstreamId> = Vec::new();
    let mut i: usize = 0;
    while i < v.len()
        invariant
            i <= v@.len(),
            out@ == v@.subrange(0, i as int),
        decreases v.len() - i,
    {
        out.push(v[i].clone());
        i = i + 1;
    }
    proof {
        assert(v@.subrange(0, v@.len() as int) =~= v@);
    }
    out
}

fn clone_region(r: &Option<(RoutingRegion, ConstraintStrength)>) -> (c: Option<
    (RoutingRegion, ConstraintStrength),
>)
    ensures
        c == *r,
{
    match r {
        None => None,
        Some((region, strength)) => Some((region.clone(), *strength)),
    }
}

impl Clone for OpenRouterRoutingPatch {
    fn clone(&self) -> (r: Self)
        ensures
            r@ == self@,
    {
        OpenRouterRoutingPatch {
            source: self.source,
            allowed: match &self.allowed {
                None => None,
                Some(v) => Some(clone_ids(v)),
            },
            denied: match &self.denied {
                None => None,
                Some(v) => Some(clone_ids(v)),
            },
            order: match &self.order {
                None => None,
                Some(v) => Some(clone_ids(v)),
            },
            region: clone_region(&self.region),
            data_retention: self.data_retention,
            fallback: self.fallback,
            sort: self.sort,
        }
    }
}

impl OpenRouterRoutingPatch {
    /// Creates an empty patch with an explicit source.
    pub fn from_source(source: PolicySource) -> (r: Self)
        ensures
            r@ == (PatchView { source: Some(source), ..empty_patch() }),
    {
        OpenRouterRoutingPatch {
            source: Some(source),
            allowed: None,
            denied: None,
            order: None,
            region: None,
            data_retention: None,
            fallback: None,
            sort: None,
        }
    }

    /// Sets the allowed upstream set. An empty set is rejected during resolution.
    pub fn with_allowed(self, values: Vec<UpstreamId>) -> (r: Self)
        ensures
            r@ == (PatchView { allowed: Some(ids_view(values@)), ..self@ }),
    {
        OpenRouterRoutingPatch { allowed: Some(values), ..self }
    }

    /// Sets the denied upstreams. Profile and request denials are unioned.
    pub fn with_denied(self, values: Vec<UpstreamId>) -> (r: Self)
        ensures
            r@ == (PatchView { denied: Some(ids_view(values@)), ..self@ }),
    {
        OpenRouterRoutingPatch { denied: Some(values), ..self }
    }

    /// Sets deterministic provider order. Duplicates are rejected during resolution.
    pub fn with_order(self, values: Vec<UpstreamId>) -> (r: Self)
        ensures
            r@ == (PatchView { order: Some(ids_seq(values@)), ..self@ }),
    {
        OpenRouterRoutingPatch { order: Some(values), ..self }
    }

    /// Sets an explicit region/residency requirement.
    pub fn with_region(self, region: RoutingRegion, strength: ConstraintStrength) -> (r: Self)
        ensures
            r@ == (PatchView { region: Some((region@, strength)), ..self@ }),
    {
        OpenRouterRoutingPatch { region: Some((region, strength)), ..self }
    }

    /// Sets an explicit data-retention requirement.
    pub fn with_data_retention(self, retention: DataRetention, strength: ConstraintStrength) -> (r:
        Self)
        ensures
            r@ == (PatchView { data_retention: Some((retention, strength)), ..self@ }),
    {
        OpenRouterRoutingPatch { data_retention: Some((retention, strength)), ..self }
    }

    /// Sets fallback behavior.
    pub fn with_fallback(self, fallback: RoutingFallback) -> (r: Self)
        ensures
            r@ == (PatchView { fallback: Some(fallback), ..self@ }),
    {
        OpenRouterRoutingPatch { fallback: Some(fallback), ..self }
    }

    /// Sets provider sort preference.
    pub fn with_sort(self, sort: RoutingSort) -> (r: Self)
        ensures
            r@ == (PatchView { sort: Some(sort), ..self@ }),
    {
        OpenRouterRoutingPatch { sort: Some(sort), ..self }
    }

    fn source(&self) -> (r: PolicySource)
        ensures
            r == patch_source(self@),
    {
        match self.source {
            Some(s) => s,
            None => PolicySource::Request,
        }
    }

    fn is_empty(&self) -> (r: bool)
        ensures
            r == patch_is_empty(self@),
    {
        self.allowed.is_none() && self.denied.is_none() && self.order.is_none()
            && self.region.is_none() && self.data_retention.is_none() && self.fallback.is_none()
            && self.sort.is_none()
    }
}

/// Request-level provider options kept outside the provider-neutral domain request.
#[derive(Debug)]
pub struct ProviderRequestOptions {
    openrouter_routing: Option<OpenRouterRoutingPatch>,
}

impl ProviderRequestOptions {
    pub closed spec fn spec_openrouter_routing(&self) -> Option<PatchView> {
        match self.openrouter_routing {
            None => None,
            Some(p) => Some(p@),
        }
    }

    /// Creates empty provider options.
    pub fn new() -> (r: Self)
        ensures
            r.spec_openrouter_routing() is None,
    {
        ProviderRequestOptions { openrouter_routing: None }
    }

    /// Installs a typed OpenRouter-scoped routing patch.
    pub fn with_openrouter_routing(self, patch: OpenRouterRoutingPatch) -> (r: Self)
        ensures
            r.spec_openrouter_routing() == Some(patch@),
    {
        ProviderRequestOptions { openrouter_routing: Some(patch) }
    }

    /// Returns the installed routing patch.
    pub fn openrouter_routing(&self) -> (r: Option<&OpenRouterRoutingPatch>)
        ensures
            match r {
                None => self.spec_openrouter_routing() is None,
                Some(p) => self.spec_openrouter_routing() == Some(p@),
            },
    {
        match &self.openrouter_routing {
            None => None,
            Some(p) => Some(p),
        }
    }

    /// Returns whether no provider option is installed.
    pub fn is_empty(&self) -> (r: bool)
        ensures
            r == self.spec_openrouter_routing() is None,
    {
        self.openrouter_routing.is_none()
    }
}

/// Profile declaration that enables the private `OpenRouter` wire contract.
#[derive(Debug)]
pub struct OpenRouterRoutingContract {
    defaults: OpenRouterRoutingPatch,
    region_wire_supported: bool,
}

impl OpenRouterRoutingContract {
    pub closed spec fn spec_defaults(&self) -> PatchView {
        self.defaults@
    }

    pub closed spec fn spec_region_wire_supported(&self) -> bool {
        self.region_wire_supported
    }

    /// Creates a contract from provider-profile defaults; region wire support is off.
    pub fn new(defaults: OpenRouterRoutingPatch) -> (r: Self)
        ensures
            r.spec_defaults() == defaults@,
            !r.spec_region_wire_supported(),
    {
        OpenRouterRoutingContract { defaults, region_wire_supported: false }
    }

    /// Enables a reviewed region wire mapping for a future provider profile.
    pub fn with_region_wire_support(self, supported: bool) -> (r: Self)
        ensures
            r.spec_defaults() == self.spec_defaults(),
            r.spec_region_wire_supported() == supported,
    {
        OpenRouterRoutingContract { region_wire_supported: supported, ..self }
    }

    /// Resolves profile defaults and an optional request patch without I/O.
    pub fn resolve(&self, request: Option<&OpenRouterRoutingPatch>) -> (r: Result<
        ResolvedProviderRouting,
        LlmError,
    >)
        ensures
            ({
                let request_view = match request {
                    None => None,
                    Some(p) => Some(p@),
                };
                match (r, spec_resolve(self.spec_defaults(), request_view, self.spec_region_wire_supported())) {
                    (Ok(resolved), Ok(v)) => resolved@ == v,
                    (Err(e), Err(f)) => reports(e, f),
                    _ => false,
                }
            }),
    {
        let mut resolved = ResolvedProviderRouting::empty();
        apply_patch(&mut resolved, &self.defaults, false)?;
        if let Some(request) = request {
            apply_patch(&mut resolved, request, true)?;
        }
        validate_resolved(&resolved, self.region_wire_supported)?;
        Ok(resolved)
    }
}

/// Which fields of a resolved policy were set, and by which layer.
#[derive(Clone, Copy, Debug, PartialEq, Eq, Structural)]
struct RoutingProvenance {
    allowed: Option<PolicySource>,
    denied: Option<PolicySource>,
    order: Option<PolicySource>,
    region: Option<PolicySource>,
    data_retention: Option<PolicySource>,
    fallback: Option<PolicySource>,
    sort: Option<PolicySource>,
}

spec fn prov_get(p: RoutingProvenance, f: RoutingField) -> Option<PolicySource> {
    match f {
        RoutingField::AllowedUpstreams => p.allowed,
        RoutingField::DeniedUpstreams => p.denied,
        RoutingField::ProviderOrder => p.order,
        RoutingField::Region => p.region,
        RoutingField::DataRetention => p.data_retention,
        RoutingField::Fallback => p.fallback,
        RoutingField::Sort => p.sort,
    }
}

spec fn prov_map(p: RoutingProvenance) -> Map<RoutingField, PolicySource> {
    Map::new(|f: RoutingField| prov_get(p, f) is Some, |f: RoutingField| prov_get(p, f)->0)
}

impl RoutingProvenance {
    fn get(&self, f: RoutingField) -> (r: Option<PolicySource>)
        ensures
            r == prov_get(*self, f),
    {
        match f {
            RoutingField::AllowedUpstreams => self.allowed,
            RoutingField::DeniedUpstreams => self.denied,
            RoutingField::ProviderOrder => self.order,
            RoutingField::Region => self.region,
            RoutingField::DataRetention => self.data_retention,
            RoutingField::Fallback => self.fallback,
            RoutingField::Sort => self.sort,
        }
    }

    fn set(&mut self, f: RoutingField, s: PolicySource)
        ensures
            prov_map(*final(self)) == prov_map(*old(self)).insert(f, s),
    {
        match f {
            RoutingField::AllowedUpstreams => self.allowed = Some(s),
            RoutingField::DeniedUpstreams => self.denied = Some(s),
            RoutingField::ProviderOrder => self.order = Some(s),
            RoutingField::Region => self.region = Some(s),
            RoutingField::DataRetention => self.data_retention = Some(s),
            RoutingField::Fallback => self.fallback = Some(s),
            RoutingField::Sort => self.sort = Some(s),
        }
        proof {
            assert(prov_map(*self) =~= prov_map(*old(self)).insert(f, s));
        }
    }
}

/// Complete routing policy consumed only by the private protocol adapter.
#[derive(Debug)]
pub struct ResolvedProviderRouting {
    allowed: Vec<UpstreamId>,
    denied: Vec<UpstreamId>,
    order: Vec<UpstreamId>,
    region: Option<(RoutingRegion, ConstraintStrength)>,
    data_retention: Option<(DataRetention, ConstraintStrength)>,
    fallback: Option<RoutingFallback>,
    sort: Option<RoutingSort>,
    provenance: RoutingProvenance,
}

impl View for ResolvedProviderRouting {
    type V = RoutingView;

    closed spec fn view(&self) -> RoutingView {
        RoutingView {
            allowed: ids_view(self.allowed@),
            denied: ids_view(self.denied@),
            order: ids_seq(self.order@),
            region: region_view(self.region),
            data_retention: self.data_retention,
            fallback: self.fallback,
            sort: self.sort,
            provenance: prov_map(self.provenance),
        }
    }
}

impl ResolvedProviderRouting {
    fn empty() -> (r: Self)
        ensures
            r@ == empty_routing(),
    {
        let r = ResolvedProviderRouting {
            allowed: Vec::new(),
            denied: Vec::new(),
            order: Vec::new(),
            region: None,
            data_retention: None,
            fallback: None,
            sort: None,
            provenance: RoutingProvenance {
                allowed: None,
                denied: None,
                order: None,
                region: None,
                data_retention: None,
                fallback: None,
                sort: None,
            },
        };
        proof {
            assert(ids_view(r.allowed@) =~= Set::empty());
            assert(ids_view(r.denied@) =~= Set::empty());
            assert(ids_seq(r.order@) =~= Seq::empty());
            assert(prov_map(r.provenance) =~= Map::empty());
        }
        r
    }

    /// Returns the source of one resolved routing leaf.
    pub fn source(&self, field: RoutingField) -> (r: Option<PolicySource>)
        ensures
            match r {
                Some(s) => self@.provenance.contains_key(field) && self@.provenance[field] == s,
                None => !self@.provenance.contains_key(field),
            },
    {
        self.provenance.get(field)
    }

    /// Returns whether no routing field is constrained.
    pub fn is_empty(&self) -> (r: bool)
        ensures
            r == (self@.allowed == Set::<Seq<char>>::empty() && self@.denied == Set::<
                Seq<char>,
            >::empty() && self@.order.len() == 0 && self@.region is None
                && self@.data_retention is None && self@.fallback is None && self@.sort is None),
    {
        proof {
            lemma_ids_view_empty(self.allowed@);
            lemma_ids_view_empty(self.denied@);
        }
        self.allowed.len() == 0 && self.denied.len() == 0 && self.order.len() == 0
            && self.region.is_none() && self.data_retention.is_none() && self.fallback.is_none()
            && self.sort.is_none()
    }
}

proof fn lemma_ids_view_empty(v: Seq<UpstreamId>)
    ensures
        (ids_view(v) == Set::<Seq<char>>::empty()) <==> v.len() == 0,
{
    if v.len() > 0 {
        assert(ids_view(v).contains(v[0]@));
    } else {
        assert(ids_view(v) =~= Set::empty());
    }
}

fn contains_id(v: &Vec<UpstreamId>, x: &UpstreamId) -> (r: bool)
    ensures
        r == ids_view(v@).contains(x@),
{
    let mut i: usize = 0;
    while i < v.len()
        invariant
            i <= v@.len(),
            forall|j: int| 0 <= j < i ==> v@[j]@ != x@,
        decreases v.len() - i,
    {
        if v[i].same(x) {
            return true;
        }
        i = i + 1;
    }
    false
}

fn intersect_ids(a: &Vec<UpstreamId>, b: &Vec<UpstreamId>) -> (r: Vec<UpstreamId>)
    ensures
        ids_view(r@) == ids_view(a@).intersect(ids_view(b@)),
{
    let mut out: Vec<UpstreamId> = Vec::new();
    let mut i: usize = 0;
    while i < a.len()
        invariant
            i <= a@.len(),
            ids_view(out@) == ids_view(a@.subrange(0, i as int)).intersect(ids_view(b@)),
        decreases a.len() - i,
    {
        let keep = contains_id(b, &a[i]);
        let ghost prev = out@;
        if keep {
            out.push(a[i].clone());
        }
        proof {
            let pa = a@.subrange(0, i as int);
            let na = a@.subrange(0, i + 1);
            assert forall|x: Seq<char>| ids_view(out@).contains(x) <==> (ids_view(na).contains(x)
                && ids_view(b@).contains(x)) by {
                if ids_view(out@).contains(x) {
                    let k = choose|k: int| 0 <= k < out@.len() && out@[k]@ == x;
                    if k < prev.len() {
                        assert(ids_view(prev).contains(x));
                        let m = choose|m: int| 0 <= m < pa.len() && pa[m]@ == x;
                        assert(na[m]@ == x);
                    } else {
                        assert(na[i as int]@ == x);
                    }
                }
                if ids_view(na).contains(x) && ids_view(b@).contains(x) {
                    let m = choose|m: int| 0 <= m < na.len() && na[m]@ == x;
                    if m < i {
                        assert(pa[m]@ == x);
                        assert(ids_view(prev).contains(x));
                        let k = choose|k: int| 0 <= k < prev.len() && prev[k]@ == x;
                        assert(out@[k]@ == x);
                    } else {
                        assert(out@[out@.len() - 1]@ == x);
                    }
                }
            }
            assert(ids_view(out@) =~= ids_view(na).intersect(ids_view(b@)));
        }
        i = i + 1;
    }
    proof {
        assert(a@.subrange(0, a@.len() as int) =~= a@);
    }
    out
}

fn append_ids(target: &mut Vec<UpstreamId>, extra: &Vec<UpstreamId>)
    ensures
        ids_view(final(target)@) == ids_view(old(target)@).union(ids_view(extra@)),
{
    let ghost base = target@;
    let mut i: usize = 0;
    while i < extra.len()
        invariant
            i <= extra@.len(),
            target@ == base + extra@.subrange(0, i as int),
        decreases extra.len() - i,
    {
        target.push(extra[i].clone());
        proof {
            assert(extra@.subrange(0, i + 1) =~= extra@.subrange(0, i as int).push(extra@[i as int]));
        }
        i = i + 1;
    }
    proof {
        assert(extra@.subrange(0, extra@.len() as int) =~= extra@);
        assert forall|x: Seq<char>| ids_view(target@).contains(x) <==> (ids_view(base).contains(x)
            || ids_view(extra@).contains(x)) by {
            if ids_view(target@).contains(x) {
                let k = choose|k: int| 0 <= k < target@.len() && target@[k]@ == x;
                if k < base.len() {
                    assert(base[k]@ == x);
                } else {
                    assert(extra@[k - base.len()]@ == x);
                }
            }
            if ids_view(base).contains(x) {
                let k = choose|k: int| 0 <= k < base.len() && base[k]@ == x;
                assert(target@[k]@ == x);
            }
            if ids_view(extra@).contains(x) {
                let k = choose|k: int| 0 <= k < extra@.len() && extra@[k]@ == x;
                assert(target@[base.len() + k]@ == x);
            }
        }
        assert(ids_view(target@) =~= ids_view(base).union(ids_view(extra@)));
    }
}

fn has_duplicates(v: &Vec<UpstreamId>) -> (r: bool)
    ensures
        r == !no_duplicates(ids_seq(v@)),
{
    let n = v.len();
    let mut i: usize = 0;
    while i < n
        invariant
            n == v@.len(),
            i <= n,
            forall|a: int, b: int| 0 <= a < b < n && a < i ==> v@[a]@ != v@[b]@,
        decreases n - i,
    {
        let mut j: usize = i + 1;
        while j < n
            invariant
                n == v@.len(),
                i < n,
                i + 1 <= j <= n,
                forall|a: int, b: int| 0 <= a < b < n && a < i ==> v@[a]@ != v@[b]@,
                forall|b: int| i < b < j ==> v@[i as int]@ != v@[b]@,
            decreases n - j,
        {
            if v[i].same(&v[j]) {
                proof {
                    assert(ids_seq(v@)[i as int] == ids_seq(v@)[j as int]);
                }
                return true;
            }
            j = j + 1;
        }
        i = i + 1;
    }
    proof {
        assert forall|a: int, b: int| 0 <= a < b < ids_seq(v@).len() implies ids_seq(v@)[a]
            != ids_seq(v@)[b] by {
            assert(v@[a]@ != v@[b]@);
        }
    }
    false
}

fn apply_allowed(
    resolved: &mut ResolvedProviderRouting,
    patch: &OpenRouterRoutingPatch,
    request_layer: bool,
) -> (r: Result<(), LlmError>)
    ensures
        match step_allowed(old(resolved)@, patch@, request_layer) {
            Ok(v) => r is Ok && final(resolved)@ == v,
            Err(f) => r matches Err(e) && reports(e, f) && final(resolved)@ == old(resolved)@,
        },
{
    if let Some(allowed) = &patch.allowed {
        proof {
            lemma_ids_view_empty(allowed@);
            lemma_ids_view_empty(resolved.allowed@);
        }
        if allowed.len() == 0 {
            return Err(
                validation(
                    "routing.allowed",
                    ValidationReason::Conflict,
                    "allowed upstream set cannot be empty",
                ),
            );
        }
        if request_layer && resolved.allowed.len() != 0 {
            resolved.allowed = intersect_ids(&resolved.allowed, allowed);
        } else {
            resolved.allowed = clone_ids(allowed);
        }
        resolved.provenance.set(RoutingField::AllowedUpstreams, patch.source());
    }
    Ok(())
}

fn apply_denied(resolved: &mut ResolvedProviderRouting, patch: &OpenRouterRoutingPatch)
    ensures
        final(resolved)@ == step_denied(old(resolved)@, patch@),
{
    if let Some(denied) = &patch.denied {
        append_ids(&mut resolved.denied, denied);
        resolved.provenance.set(RoutingField::DeniedUpstreams, patch.source());
    }
}

fn apply_order(resolved: &mut ResolvedProviderRouting, patch: &OpenRouterRoutingPatch) -> (r:
    Result<(), LlmError>)
    ensures
        match step_order(old(resolved)@, patch@) {
            Ok(v) => r is Ok && final(resolved)@ == v,
            Err(f) => r matches Err(e) && reports(e, f) && final(resolved)@ == old(resolved)@,
        },
{
    if let Some(order) = &patch.order {
        if has_duplicates(order) {
            return Err(
                validation(
                    "routing.order",
                    ValidationReason::Conflict,
                    "provider order contains duplicates",
                ),
            );
        }
        resolved.order = clone_ids(order);
        resolved.provenance.set(RoutingField::ProviderOrder, patch.source());
    }
    Ok(())
}

fn apply_region(
    resolved: &mut ResolvedProviderRouting,
    patch: &OpenRouterRoutingPatch,
    request_layer: bool,
) -> (r: Result<(), LlmError>)
    ensures
        match step_region(old(resolved)@, patch@, request_layer) {
            Ok(v) => r is Ok && final(resolved)@ == v,
            Err(f) => r matches Err(e) && reports(e, f) && final(resolved)@ == old(resolved)@,
        },
{
    if let Some(region) = &patch.region {
        if request_layer {
            if let Some(existing) = &resolved.region {
                if existing.1 == ConstraintStrength::Hard && !(region.0.same(&existing.0)
                    && region.1 == existing.1) {
                    return Err(
                        validation(
                            "routing.region",
                            ValidationReason::Conflict,
                            "request cannot replace a hard profile region constraint",
                        ),
                    );
                }
            }
        }
        resolved.region = Some((region.0.clone(), region.1));
        resolved.provenance.set(RoutingField::Region, patch.source());
    }
    Ok(())
}

fn apply_retention(
    resolved: &mut ResolvedProviderRouting,
    patch: &OpenRouterRoutingPatch,
    request_layer: bool,
) -> (r: Result<(), LlmError>)
    ensures
        match step_retention(old(resolved)@, patch@, request_layer) {
            Ok(v) => r is Ok && final(resolved)@ == v,
            Err(f) => r matches Err(e) && reports(e, f) && final(resolved)@ == old(resolved)@,
        },
{
    if let Some(retention) = patch.data_retention {
        if request_layer {
            if let Some(existing) = resolved.data_retention {
                if existing.1 == ConstraintStrength::Hard && (retention.1
                    != ConstraintStrength::Hard || retention.0.strictness()
                    < existing.0.strictness()) {
                    return Err(
                        validation(
                            "routing.data_retention",
                            ValidationReason::Conflict,
                            "request cannot relax a hard profile retention constraint",
                        ),
                    );
                }
            }
        }
        resolved.data_retention = Some(retention);
        resolved.provenance.set(RoutingField::DataRetention, patch.source());
    }
    Ok(())
}

fn apply_fallback(
    resolved: &mut ResolvedProviderRouting,
    patch: &OpenRouterRoutingPatch,
    request_layer: bool,
) -> (r: Result<(), LlmError>)
    ensures
        match step_fallback(old(resolved)@, patch@, request_layer) {
            Ok(v) => r is Ok && final(resolved)@ == v,
            Err(f) => r matches Err(e) && reports(e, f) && final(resolved)@ == old(resolved)@,
        },
{
    if let Some(fallback) = patch.fallback {
        if request_layer {
            if let Some(existing) = resolved.fallback {
                if !existing.enabled() && fallback.enabled() {
                    return Err(
                        validation(
                            "routing.fallback",
                            ValidationReason::Conflict,
                            "request cannot enable fallback disabled by profile policy",
                        ),
                    );
                }
            }
        }
        resolved.fallback = Some(fallback);
        resolved.provenance.set(RoutingField::Fallback, patch.source());
    }
    Ok(())
}

fn apply_sort(resolved: &mut ResolvedProviderRouting, patch: &OpenRouterRoutingPatch)
    ensures
        final(resolved)@ == step_sort(old(resolved)@, patch@),
{
    if let Some(sort) = patch.sort {
        resolved.sort = Some(sort);
        resolved.provenance.set(RoutingField::Sort, patch.source());
    }
}

/// Applies one layer to `resolved`.
fn apply_patch(
    resolved: &mut ResolvedProviderRouting,
    patch: &OpenRouterRoutingPatch,
    request_layer: bool,
) -> (r: Result<(), LlmError>)
    ensures
        match spec_apply_patch(old(resolved)@, patch@, request_layer) {
            Ok(v) => r is Ok && final(resolved)@ == v,
            Err(f) => r matches Err(e) && reports(e, f),
        },
        final(resolved)@ == patch_reached(old(resolved)@, patch@, request_layer),
{
    if patch.is_empty() {
        return Ok(());
    }
    apply_allowed(resolved, patch, request_layer)?;
    apply_denied(resolved, patch);
    apply_order(resolved, patch)?;
    apply_region(resolved, patch, request_layer)?;
    apply_retention(resolved, patch, request_layer)?;
    apply_fallback(resolved, patch, request_layer)?;
    apply_sort(resolved, patch);
    Ok(())
}

/// Checks the cross-field invariants of a resolved policy.
fn validate_resolved(resolved: &ResolvedProviderRouting, region_wire_supported: bool) -> (r:
    Result<(), LlmError>)
    ensures
        match spec_validate_resolved(resolved@, region_wire_supported) {
            None => r is Ok,
            Some(f) => r matches Err(e) && reports(e, f),
        },
{
    let ghost v = resolved@;
    // Allowed and denied must be disjoint.
    let mut i: usize = 0;
    while i < resolved.allowed.len()
        invariant
            i <= resolved.allowed@.len(),
            forall|j: int| 0 <= j < i ==> !ids_view(resolved.denied@).contains(
                #[trigger] resolved.allowed@[j]@,
            ),
            v == resolved@,
        decreases resolved.allowed.len() - i,
    {
        if contains_id(&resolved.denied, &resolved.allowed[i]) {
            proof {
                assert(0 <= i < resolved.allowed@.len());
                assert(v.allowed.contains(resolved.allowed@[i as int]@));
                assert(v.denied.contains(resolved.allowed@[i as int]@));
            }
            return Err(
                validation(
                    "routing.upstreams",
                    ValidationReason::Conflict,
                    "allowed and denied upstream sets overlap",
                ),
            );
        }
        i = i + 1;
    }
    proof {
        assert forall|x: Seq<char>| v.allowed.contains(x) implies !v.denied.contains(x) by {
            let k = choose|k: int| 0 <= k < resolved.allowed@.len() && resolved.allowed@[k]@ == x;
            assert(!ids_view(resolved.denied@).contains(resolved.allowed@[k]@));
        }
        lemma_ids_view_empty(resolved.allowed@);
    }
    proof {
        assert(v.allowed.disjoint(v.denied));
    }
    // Order must stay within the allowlist when one is declared.
    if resolved.allowed.len() != 0 {
        let mut k: usize = 0;
        while k < resolved.order.len()
            invariant
                k <= resolved.order@.len(),
                forall|j: int| 0 <= j < k ==> v.allowed.contains(#[trigger] v.order[j]),
                v == resolved@,
                v.allowed.disjoint(v.denied),
                v.allowed != Set::<Seq<char>>::empty(),
            decreases resolved.order.len() - k,
        {
            proof {
                assert(v.order[k as int] == resolved.order@[k as int]@);
            }
            if !contains_id(&resolved.allowed, &resolved.order[k]) {
                proof {
                    assert(v.order[k as int] == resolved.order@[k as int]@);
                    assert(!v.allowed.contains(v.order[k as int]));
                    assert(v.allowed.disjoint(v.denied));
                    assert(v.allowed != Set::<Seq<char>>::empty());
                    assert(exists|i: int|
                        0 <= i < v.order.len() && !v.allowed.contains(#[trigger] v.order[i]));
                }
                return Err(
                    validation(
                        "routing.order",
                        ValidationReason::Conflict,
                        "provider order contains an upstream outside the allowlist",
                    ),
                );
            }
            k = k + 1;
        }
    }
    // Order must not name a denied upstream.
    let mut k: usize = 0;
    while k < resolved.order.len()
        invariant
            k <= resolved.order@.len(),
            forall|j: int| 0 <= j < k ==> !v.denied.contains(#[trigger] v.order[j]),
            v == resolved@,
            v.allowed.disjoint(v.denied),
            v.allowed == Set::<Seq<char>>::empty() || forall|j: int|
                0 <= j < v.order.len() ==> v.allowed.contains(#[trigger] v.order[j]),
        decreases resolved.order.len() - k,
    {
        proof {
            assert(v.order[k as int] == resolved.order@[k as int]@);
        }
        if contains_id(&resolved.denied, &resolved.order[k]) {
            proof {
                assert(v.denied.contains(v.order[k as int]));
                assert(v.allowed.disjoint(v.denied));
                assert(exists|i: int|
                    0 <= i < v.order.len() && v.denied.contains(#[trigger] v.order[i]));
            }
            return Err(
                validation(
                    "routing.order",
                    ValidationReason::Conflict,
                    "provider order contains a denied upstream",
                ),
            );
        }
        k = k + 1;
    }
    if resolved.region.is_some() && !region_wire_supported {
        return Err(
            validation(
                "routing.region",
                ValidationReason::CapabilityUnsupported,
                "profile has no reviewed region wire mapping",
            ),
        );
    }
    Ok(())
}

} // verus!
