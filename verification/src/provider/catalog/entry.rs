//! Exact model catalog entries and constrained capability/limit metadata.

use vstd::prelude::*;
use vstd::std_specs::cmp::PartialEqSpecImpl;

use crate::domain::{
    CapabilityStatus, ModelId, PriceProfile, ProtocolId, ProviderId, ReasoningEffortSupport,
    ResourceLimits,
};
use crate::error::{configuration, is_configuration, LlmError};
use crate::text::{
    blank, is_blank, lemma_seq_lt_irreflexive, lemma_seq_lt_total, lemma_seq_lt_transitive, owned,
    seq_lt, str_eq, str_lt,
};

use super::ids::{DeploymentId, ProductId, ProviderModelId, WireModelValue};
use super::source::{CatalogSource, CatalogSourceView};

verus! {

/// Model-specific limits; absent fields remain unknown rather than zero.
#[derive(Clone, Copy, Debug, PartialEq, Eq, Structural)]
pub struct ModelLimits {
    /// Context window in tokens, when officially documented.
    pub context_window_tokens: Option<u32>,
    /// Maximum output tokens.
    pub max_output_tokens: Option<u32>,
    /// Maximum history messages.
    pub max_messages: Option<usize>,
    /// Maximum tool definitions.
    pub max_tools: Option<usize>,
    /// Maximum images.
    pub max_images: Option<usize>,
    /// Maximum schema bytes.
    pub max_schema_bytes: Option<usize>,
}

impl Default for ModelLimits {
    fn default() -> (r: Self)
        ensures
            r == (ModelLimits {
                context_window_tokens: None,
                max_output_tokens: None,
                max_messages: None,
                max_tools: None,
                max_images: None,
                max_schema_bytes: None,
            }),
    {
        ModelLimits {
            context_window_tokens: None,
            max_output_tokens: None,
            max_messages: None,
            max_tools: None,
            max_images: None,
            max_schema_bytes: None,
        }
    }
}

/// Why limits are rejected, as the error message, or `None` when every declared limit
/// is positive.
pub open spec fn limits_rejection(l: ModelLimits) -> Option<Seq<char>> {
    if l.context_window_tokens == Some(0u32) || l.max_output_tokens == Some(0u32) {
        Some("catalog token limit must be positive"@)
    } else if l.max_messages == Some(0usize) || l.max_tools == Some(0usize) || l.max_images == Some(
        0usize,
    ) || l.max_schema_bytes == Some(0usize) {
        Some("catalog resource limit must be positive"@)
    } else {
        None
    }
}

/// `value` lowered to `ceiling` when one is declared.
pub open spec fn capped(value: usize, ceiling: Option<usize>) -> usize {
    match ceiling {
        Some(c) => if c < value {
            c
        } else {
            value
        },
        None => value,
    }
}

fn cap(value: usize, ceiling: Option<usize>) -> (r: usize)
    ensures
        r == capped(value, ceiling),
{
    match ceiling {
        Some(c) => if c < value {
            c
        } else {
            value
        },
        None => value,
    }
}

impl ModelLimits {
    /// Validates positive limits.
    pub fn validate(self) -> (r: Result<(), LlmError>)
        ensures
            match limits_rejection(self) {
                None => r is Ok,
                Some(message) => r matches Err(e) && is_configuration(e, message),
            },
    {
        if self.context_window_tokens == Some(0u32) || self.max_output_tokens == Some(0u32) {
            return Err(configuration("catalog token limit must be positive"));
        }
        if self.max_messages == Some(0usize) || self.max_tools == Some(0usize) || self.max_images
            == Some(0usize) || self.max_schema_bytes == Some(0usize) {
            return Err(configuration("catalog resource limit must be positive"));
        }
        Ok(())
    }

    /// Applies model ceilings to the SDK's transport/resource snapshot.
    pub fn apply_to(self, base: ResourceLimits) -> (r: ResourceLimits)
        ensures
            r == (ResourceLimits {
                max_messages: capped(base.max_messages, self.max_messages),
                max_tools: capped(base.max_tools, self.max_tools),
                max_images: capped(base.max_images, self.max_images),
                max_schema_bytes: capped(base.max_schema_bytes, self.max_schema_bytes),
            }),
    {
        ResourceLimits {
            max_messages: cap(base.max_messages, self.max_messages),
            max_tools: cap(base.max_tools, self.max_tools),
            max_images: cap(base.max_images, self.max_images),
            max_schema_bytes: cap(base.max_schema_bytes, self.max_schema_bytes),
        }
    }
}

/// Provider defaults that may be merged with exact model facts.
#[derive(Debug)]
pub struct CatalogDefaults {
    /// Provider identity.
    pub provider_id: ProviderId,
    /// Provider product identity.
    pub product_id: ProductId,
    /// Default capability values.
    pub capabilities: CatalogCapabilities,
    /// Default resource limits.
    pub limits: ModelLimits,
    /// Source evidence.
    pub source: CatalogSource,
}

/// Mathematical form of a [`ModelKey`]: provider, product and domain model identifiers.
pub type ModelKeyView = (Seq<char>, Seq<char>, Seq<char>);

/// Exact provider/product/domain model catalog key.
#[derive(Debug)]
pub struct ModelKey {
    /// Provider identity.
    pub provider_id: ProviderId,
    /// Product identity.
    pub product_id: ProductId,
    /// Domain model identity.
    pub domain_model_id: ModelId,
}

impl View for ModelKey {
    type V = ModelKeyView;

    open spec fn view(&self) -> ModelKeyView {
        (self.provider_id@, self.product_id@, self.domain_model_id@)
    }
}

impl Clone for ModelKey {
    fn clone(&self) -> (r: Self)
        ensures
            r@ == self@,
    {
        ModelKey {
            provider_id: self.provider_id.clone(),
            product_id: self.product_id.clone(),
            domain_model_id: self.domain_model_id.clone(),
        }
    }
}

impl PartialEq for ModelKey {
    fn eq(&self, other: &Self) -> (r: bool) {
        self.provider_id == other.provider_id && self.product_id == other.product_id
            && self.domain_model_id == other.domain_model_id
    }
}

impl PartialEqSpecImpl for ModelKey {
    open spec fn obeys_eq_spec() -> bool {
        true
    }

    open spec fn eq_spec(&self, other: &Self) -> bool {
        self@ == other@
    }
}

/// Key order: by provider, then product, then domain model, each lexicographically.
pub open spec fn key_lt(a: ModelKeyView, b: ModelKeyView) -> bool {
    ||| seq_lt(a.0, b.0)
    ||| (a.0 == b.0 && seq_lt(a.1, b.1))
    ||| (a.0 == b.0 && a.1 == b.1 && seq_lt(a.2, b.2))
}

/// `key_lt` is a strict total order.
pub proof fn lemma_key_lt_order(a: ModelKeyView, b: ModelKeyView, c: ModelKeyView)
    ensures
        !key_lt(a, a),
        key_lt(a, b) && key_lt(b, c) ==> key_lt(a, c),
        a != b ==> key_lt(a, b) || key_lt(b, a),
        !(key_lt(a, b) && key_lt(b, a)),
{
    lemma_seq_lt_irreflexive(a.0);
    lemma_seq_lt_irreflexive(a.1);
    lemma_seq_lt_irreflexive(a.2);
    lemma_seq_lt_total(a.0, b.0);
    lemma_seq_lt_total(a.1, b.1);
    lemma_seq_lt_total(a.2, b.2);
    lemma_seq_lt_total(b.0, c.0);
    lemma_seq_lt_total(b.1, c.1);
    lemma_seq_lt_total(b.2, c.2);
    if key_lt(a, b) && key_lt(b, c) {
        if seq_lt(a.0, b.0) && seq_lt(b.0, c.0) {
            lemma_seq_lt_transitive(a.0, b.0, c.0);
        }
        if a.0 == b.0 && b.0 == c.0 && seq_lt(a.1, b.1) && seq_lt(b.1, c.1) {
            lemma_seq_lt_transitive(a.1, b.1, c.1);
        }
        if a.0 == b.0 && b.0 == c.0 && a.1 == b.1 && b.1 == c.1 && seq_lt(a.2, b.2) && seq_lt(
            b.2,
            c.2,
        ) {
            lemma_seq_lt_transitive(a.2, b.2, c.2);
        }
    }
}

/// Three-way comparison outcome of two keys.
#[derive(Clone, Copy, Debug, PartialEq, Eq, Structural)]
pub enum KeyOrder {
    /// The first key orders first.
    Before,
    /// The keys are equal.
    Same,
    /// The first key orders last.
    After,
}

impl ModelKey {
    /// Compares two keys in catalog order.
    pub fn compare(&self, other: &ModelKey) -> (r: KeyOrder)
        ensures
            r == KeyOrder::Before <==> key_lt(self@, other@),
            r == KeyOrder::Same <==> self@ == other@,
            r == KeyOrder::After <==> key_lt(other@, self@),
    {
        proof {
            lemma_key_lt_order(self@, other@, other@);
        }
        let a = self.provider_id.as_str();
        let b = other.provider_id.as_str();
        if !str_eq(a, b) {
            return if str_lt(a, b) {
                KeyOrder::Before
            } else {
                KeyOrder::After
            };
        }
        let a = self.product_id.as_str();
        let b = other.product_id.as_str();
        if !str_eq(a, b) {
            return if str_lt(a, b) {
                KeyOrder::Before
            } else {
                KeyOrder::After
            };
        }
        let a = self.domain_model_id.as_str();
        let b = other.domain_model_id.as_str();
        if !str_eq(a, b) {
            return if str_lt(a, b) {
                KeyOrder::Before
            } else {
                KeyOrder::After
            };
        }
        KeyOrder::Same
    }
}

/// Structured capability declaration stored by the catalog.
#[derive(Clone, Copy, Debug, PartialEq, Eq, Structural)]
pub struct CatalogCapabilities {
    /// Function tools.
    pub function_tools: CapabilityStatus,
    /// Required tool choice.
    pub tool_choice_required: CapabilityStatus,
    /// Specific tool choice.
    pub tool_choice_specific: CapabilityStatus,
    /// Parallel tool calls.
    pub parallel_tool_calls: CapabilityStatus,
    /// Strict tools.
    pub strict_tools: CapabilityStatus,
    /// Vision input.
    pub vision_input: CapabilityStatus,
    /// Original image detail.
    pub image_detail_original: CapabilityStatus,
    /// JSON object output.
    pub response_format_json_object: CapabilityStatus,
    /// JSON schema output.
    pub response_format_json_schema: CapabilityStatus,
    /// Reasoning efforts.
    pub reasoning_efforts: ReasoningEffortSupport,
    /// Protocol-scoped adaptive-thinking request support.
    pub adaptive_thinking: CapabilityStatus,
    /// Protocol-scoped adaptive-thinking effort support.
    pub adaptive_thinking_effort: CapabilityStatus,
}

/// The declaration in which every capability is unknown.
pub open spec fn unknown_capabilities() -> CatalogCapabilities {
    CatalogCapabilities {
        function_tools: CapabilityStatus::Unknown,
        tool_choice_required: CapabilityStatus::Unknown,
        tool_choice_specific: CapabilityStatus::Unknown,
        parallel_tool_calls: CapabilityStatus::Unknown,
        strict_tools: CapabilityStatus::Unknown,
        vision_input: CapabilityStatus::Unknown,
        image_detail_original: CapabilityStatus::Unknown,
        response_format_json_object: CapabilityStatus::Unknown,
        response_format_json_schema: CapabilityStatus::Unknown,
        reasoning_efforts: ReasoningEffortSupport::Unknown,
        adaptive_thinking: CapabilityStatus::Unknown,
        adaptive_thinking_effort: CapabilityStatus::Unknown,
    }
}

impl CatalogCapabilities {
    /// Returns the declaration in which every capability is unknown.
    pub fn all_unknown() -> (r: Self)
        ensures
            r == unknown_capabilities(),
    {
        CatalogCapabilities {
            function_tools: CapabilityStatus::Unknown,
            tool_choice_required: CapabilityStatus::Unknown,
            tool_choice_specific: CapabilityStatus::Unknown,
            parallel_tool_calls: CapabilityStatus::Unknown,
            strict_tools: CapabilityStatus::Unknown,
            vision_input: CapabilityStatus::Unknown,
            image_detail_original: CapabilityStatus::Unknown,
            response_format_json_object: CapabilityStatus::Unknown,
            response_format_json_schema: CapabilityStatus::Unknown,
            reasoning_efforts: ReasoningEffortSupport::Unknown,
            adaptive_thinking: CapabilityStatus::Unknown,
            adaptive_thinking_effort: CapabilityStatus::Unknown,
        }
    }
}

impl Default for CatalogCapabilities {
    fn default() -> (r: Self)
        ensures
            r == unknown_capabilities(),
    {
        Self::all_unknown()
    }
}


/// A field path occurs at index `i` of `entries`.
pub open spec fn field_at(entries: Seq<(String, CatalogSource)>, i: int, field: Seq<char>) -> bool {
    0 <= i < entries.len() && entries[i].0@ == field
}

/// The field paths of `entries` are pairwise distinct.
pub open spec fn fields_distinct(entries: Seq<(String, CatalogSource)>) -> bool {
    forall|i: int, j: int| 0 <= i < j < entries.len() ==> entries[i].0@ != entries[j].0@
}

/// The map from field path to source that `entries` records.
pub open spec fn provenance_map(entries: Seq<(String, CatalogSource)>) -> Map<
    Seq<char>,
    CatalogSourceView,
> {
    Map::new(
        |field: Seq<char>| exists|i: int| field_at(entries, i, field),
        |field: Seq<char>| entries[choose|i: int| field_at(entries, i, field)].1@,
    )
}

/// In entries with distinct field paths, each entry is what the map records for its path.
pub proof fn lemma_provenance_entry(entries: Seq<(String, CatalogSource)>, i: int)
    requires
        fields_distinct(entries),
        0 <= i < entries.len(),
    ensures
        provenance_map(entries).contains_key(entries[i].0@),
        provenance_map(entries)[entries[i].0@] == entries[i].1@,
{
    let field = entries[i].0@;
    assert(field_at(entries, i, field));
    let j = choose|j: int| field_at(entries, j, field);
    if j < i {
        assert(entries[j].0@ != entries[i].0@);
    } else if i < j {
        assert(entries[i].0@ != entries[j].0@);
    }
}

/// Replacing or appending the entry at `k` with `field` changes the map only at `field`.
proof fn lemma_provenance_write(
    before: Seq<(String, CatalogSource)>,
    after: Seq<(String, CatalogSource)>,
    k: int,
    field: Seq<char>,
    source: CatalogSourceView,
)
    requires
        fields_distinct(before),
        fields_distinct(after),
        0 <= k < after.len(),
        after[k].0@ == field,
        after[k].1@ == source,
        after.len() == before.len() || (after.len() == before.len() + 1 && k == before.len()),
        k < before.len() ==> before[k].0@ == field,
        forall|j: int| 0 <= j < before.len() && j != k ==> after[j] == before[j],
    ensures
        provenance_map(after) == provenance_map(before).insert(field, source),
{
    let m1 = provenance_map(before);
    let m2 = provenance_map(after);
    lemma_provenance_entry(after, k);
    assert forall|f: Seq<char>| f != field implies (#[trigger] m2.contains_key(f) == m1.contains_key(
        f,
    )) && (m2.contains_key(f) ==> m2[f] == m1[f]) by {
        if m2.contains_key(f) {
            let j = choose|j: int| field_at(after, j, f);
            assert(j != k);
            assert(field_at(before, j, f));
            lemma_provenance_entry(after, j);
            lemma_provenance_entry(before, j);
        }
        if m1.contains_key(f) {
            let j = choose|j: int| field_at(before, j, f);
            assert(j != k);
            assert(field_at(after, j, f));
        }
    }
    assert(m2 =~= m1.insert(field, source));
}

fn position_in(entries: &Vec<(String, CatalogSource)>, field: &str) -> (r: Option<usize>)
    ensures
        match r {
            Some(i) => i < entries@.len() && entries@[i as int].0@ == field@,
            None => forall|j: int| 0 <= j < entries@.len() ==> entries@[j].0@ != field@,
        },
{
    let mut i: usize = 0;
    while i < entries.len()
        invariant
            i <= entries@.len(),
            forall|j: int| 0 <= j < i ==> entries@[j].0@ != field@,
        decreases entries.len() - i,
    {
        if str_eq(entries[i].0.as_str(), field) {
            return Some(i);
        }
        i = i + 1;
    }
    None
}

/// Field-level evidence labels: each field path maps to at most one catalog source.
#[derive(Debug)]
pub struct CatalogProvenance {
    entries: Vec<(String, CatalogSource)>,
}

impl View for CatalogProvenance {
    type V = Map<Seq<char>, CatalogSourceView>;

    closed spec fn view(&self) -> Map<Seq<char>, CatalogSourceView> {
        provenance_map(self.entries@)
    }
}

impl CatalogProvenance {
    #[verifier::type_invariant]
    spec fn paths_distinct(self) -> bool {
        fields_distinct(self.entries@)
    }

    /// An empty set of labels.
    pub fn new() -> (r: Self)
        ensures
            r@ == Map::<Seq<char>, CatalogSourceView>::empty(),
    {
        let r = CatalogProvenance { entries: Vec::new() };
        assert(r@ =~= Map::<Seq<char>, CatalogSourceView>::empty());
        r
    }

    /// Returns the source recorded for `field`.
    pub fn get(&self, field: &str) -> (r: Option<&CatalogSource>)
        ensures
            match r {
                Some(source) => self@.contains_key(field@) && source@ == self@[field@],
                None => !self@.contains_key(field@),
            },
    {
        proof {
            use_type_invariant(self);
        }
        match position_in(&self.entries, field) {
            Some(i) => {
                proof {
                    lemma_provenance_entry(self.entries@, i as int);
                }
                Some(&self.entries[i].1)
            },
            None => None,
        }
    }

    /// Records `source` for `field`, replacing an earlier label.
    pub fn insert(&mut self, field: &str, source: CatalogSource)
        ensures
            final(self)@ == old(self)@.insert(field@, source@),
    {
        proof {
            use_type_invariant(&*self);
        }
        let ghost source_view = source@;
        let mut entries: Vec<(String, CatalogSource)> = Vec::new();
        std::mem::swap(&mut entries, &mut self.entries);
        let ghost before = entries@;
        let k = match position_in(&entries, field) {
            Some(i) => {
                entries.set(i, (owned(field), source));
                i
            },
            None => {
                entries.push((owned(field), source));
                entries.len() - 1
            },
        };
        proof {
            assert forall|i: int, j: int| 0 <= i < j < entries@.len() implies entries@[i].0@
                != entries@[j].0@ by {
                if j < before.len() && i != k && j != k {
                    assert(before[i].0@ != before[j].0@);
                }
            }
            lemma_provenance_write(before, entries@, k as int, field@, source_view);
        }
        self.entries = entries;
    }

    /// Records `source` for `field` unless a label is already present.
    pub fn insert_if_absent(&mut self, field: &str, source: CatalogSource)
        ensures
            final(self)@ == if old(self)@.contains_key(field@) {
                old(self)@
            } else {
                old(self)@.insert(field@, source@)
            },
    {
        if self.get(field).is_none() {
            self.insert(field, source);
        }
    }
}

/// Two entry lists with the same field paths and source views record the same map.
proof fn lemma_provenance_same_views(a: Seq<(String, CatalogSource)>, b: Seq<(String, CatalogSource)>)
    requires
        fields_distinct(a),
        a.len() == b.len(),
        forall|j: int| 0 <= j < a.len() ==> a[j].0@ == b[j].0@ && a[j].1@ == b[j].1@,
    ensures
        fields_distinct(b),
        provenance_map(b) == provenance_map(a),
{
    assert forall|i: int, j: int| 0 <= i < j < b.len() implies b[i].0@ != b[j].0@ by {
        assert(a[i].0@ != a[j].0@);
    }
    let ma = provenance_map(a);
    let mb = provenance_map(b);
    assert forall|f: Seq<char>| (#[trigger] mb.contains_key(f) == ma.contains_key(f)) && (
    mb.contains_key(f) ==> mb[f] == ma[f]) by {
        if mb.contains_key(f) {
            let j = choose|j: int| field_at(b, j, f);
            assert(field_at(a, j, f));
            lemma_provenance_entry(a, j);
            lemma_provenance_entry(b, j);
        }
        if ma.contains_key(f) {
            let j = choose|j: int| field_at(a, j, f);
            assert(field_at(b, j, f));
        }
    }
    assert(mb =~= ma);
}

impl Clone for CatalogProvenance {
    fn clone(&self) -> (r: Self)
        ensures
            r@ == self@,
    {
        proof {
            use_type_invariant(self);
        }
        let mut out: Vec<(String, CatalogSource)> = Vec::new();
        let mut i: usize = 0;
        while i < self.entries.len()
            invariant
                i <= self.entries@.len(),
                out@.len() == i,
                forall|j: int|
                    0 <= j < i ==> out@[j].0@ == self.entries@[j].0@ && out@[j].1@
                        == self.entries@[j].1@,
            decreases self.entries.len() - i,
        {
            let field = self.entries[i].0.clone();
            let source = self.entries[i].1.clone();
            out.push((field, source));
            i = i + 1;
        }
        proof {
            lemma_provenance_same_views(self.entries@, out@);
        }
        CatalogProvenance { entries: out }
    }
}

/// Mathematical form of a [`ModelEntry`].
pub struct ModelEntryView {
    pub key: ModelKeyView,
    pub provider_model_id: Seq<char>,
    pub deployment_id: Option<Seq<char>>,
    pub wire_model_value: Seq<char>,
    pub display_name: Seq<char>,
    pub protocol_id: Seq<char>,
    pub capabilities: CatalogCapabilities,
    pub limits: ModelLimits,
    pub default_max_output_tokens: Option<u32>,
    pub pricing: Option<PriceProfile>,
    pub source: CatalogSourceView,
    pub support_status: CapabilityStatus,
    pub provenance: Map<Seq<char>, CatalogSourceView>,
}

/// One exact model/deployment/wire mapping.
#[derive(Debug)]
pub struct ModelEntry {
    /// Exact lookup key.
    pub key: ModelKey,
    /// Provider model identity.
    pub provider_model_id: ProviderModelId,
    /// Optional deployment identity.
    pub deployment_id: Option<DeploymentId>,
    /// Wire model value.
    pub wire_model_value: WireModelValue,
    /// Human-readable display name.
    pub display_name: String,
    /// Protocol adapter.
    pub protocol_id: ProtocolId,
    /// Exact capability facts.
    pub capabilities: CatalogCapabilities,
    /// Exact model limits.
    pub limits: ModelLimits,
    /// Default options that are safe to apply.
    pub default_max_output_tokens: Option<u32>,
    /// Optional explicit local pricing.
    pub pricing: Option<PriceProfile>,
    /// Evidence/source.
    pub source: CatalogSource,
    /// Three-state overall availability decision.
    pub support_status: CapabilityStatus,
    /// Field-level provenance labels.
    pub provenance: CatalogProvenance,
}

impl View for ModelEntry {
    type V = ModelEntryView;

    open spec fn view(&self) -> ModelEntryView {
        ModelEntryView {
            key: self.key@,
            provider_model_id: self.provider_model_id@,
            deployment_id: match self.deployment_id {
                Some(d) => Some(d@),
                None => None,
            },
            wire_model_value: self.wire_model_value@,
            display_name: self.display_name@,
            protocol_id: self.protocol_id@,
            capabilities: self.capabilities,
            limits: self.limits,
            default_max_output_tokens: self.default_max_output_tokens,
            pricing: self.pricing,
            source: self.source@,
            support_status: self.support_status,
            provenance: self.provenance@,
        }
    }
}

impl Clone for ModelEntry {
    fn clone(&self) -> (r: Self)
        ensures
            r@ == self@,
    {
        ModelEntry {
            key: self.key.clone(),
            provider_model_id: self.provider_model_id.clone(),
            deployment_id: match &self.deployment_id {
                Some(d) => Some(d.clone()),
                None => None,
            },
            wire_model_value: self.wire_model_value.clone(),
            display_name: self.display_name.clone(),
            protocol_id: self.protocol_id.clone(),
            capabilities: self.capabilities,
            limits: self.limits,
            default_max_output_tokens: self.default_max_output_tokens,
            pricing: self.pricing,
            source: self.source.clone(),
            support_status: self.support_status,
            provenance: self.provenance.clone(),
        }
    }
}

/// Why an entry is rejected, as the error message, or `None` when it is valid.
pub open spec fn entry_rejection(e: ModelEntryView) -> Option<Seq<char>> {
    if e.key.0.len() == 0 || e.key.1.len() == 0 {
        Some("catalog key is incomplete"@)
    } else if is_blank(e.display_name) {
        Some("catalog display name must not be empty"@)
    } else if limits_rejection(e.limits) is Some {
        limits_rejection(e.limits)
    } else if e.default_max_output_tokens == Some(0u32) {
        Some("catalog default output limit must be positive"@)
    } else if e.default_max_output_tokens is Some && e.limits.max_output_tokens is Some
        && e.default_max_output_tokens.unwrap() > e.limits.max_output_tokens.unwrap() {
        Some("catalog default output tokens exceed the exact model limit"@)
    } else {
        None
    }
}

/// `r` answers the validation of `e`.
pub open spec fn entry_checked(e: ModelEntryView, r: Result<(), LlmError>) -> bool {
    match entry_rejection(e) {
        None => r is Ok,
        Some(message) => r matches Err(err) && is_configuration(err, message),
    }
}

/// The stable field paths that carry provenance labels.
pub open spec fn seed_fields() -> Seq<Seq<char>> {
    seq![
        "provider_model_id"@,
        "deployment_id"@,
        "wire_model_value"@,
        "display_name"@,
        "protocol_id"@,
        "capabilities.function_tools"@,
        "capabilities.tool_choice_required"@,
        "capabilities.tool_choice_specific"@,
        "capabilities.parallel_tool_calls"@,
        "capabilities.strict_tools"@,
        "capabilities.vision_input"@,
        "capabilities.image_detail_original"@,
        "capabilities.response_format_json_object"@,
        "capabilities.response_format_json_schema"@,
        "capabilities.reasoning_efforts"@,
        "capabilities.adaptive_thinking"@,
        "capabilities.adaptive_thinking_effort"@,
        "limits.context_window_tokens"@,
        "limits.max_output_tokens"@,
        "limits.max_messages"@,
        "limits.max_tools"@,
        "limits.max_images"@,
        "limits.max_schema_bytes"@,
        "default_max_output_tokens"@,
        "pricing"@,
        "support_status"@,
    ]
}

fn seed_fields_exec() -> (r: Vec<&'static str>)
    ensures
        r@.len() == seed_fields().len(),
        forall|i: int| 0 <= i < r@.len() ==> #[trigger] r@[i]@ == seed_fields()[i],
{
    let mut r: Vec<&'static str> = Vec::new();
    r.push("provider_model_id");
    r.push("deployment_id");
    r.push("wire_model_value");
    r.push("display_name");
    r.push("protocol_id");
    r.push("capabilities.function_tools");
    r.push("capabilities.tool_choice_required");
    r.push("capabilities.tool_choice_specific");
    r.push("capabilities.parallel_tool_calls");
    r.push("capabilities.strict_tools");
    r.push("capabilities.vision_input");
    r.push("capabilities.image_detail_original");
    r.push("capabilities.response_format_json_object");
    r.push("capabilities.response_format_json_schema");
    r.push("capabilities.reasoning_efforts");
    r.push("capabilities.adaptive_thinking");
    r.push("capabilities.adaptive_thinking_effort");
    r.push("limits.context_window_tokens");
    r.push("limits.max_output_tokens");
    r.push("limits.max_messages");
    r.push("limits.max_tools");
    r.push("limits.max_images");
    r.push("limits.max_schema_bytes");
    r.push("default_max_output_tokens");
    r.push("pricing");
    r.push("support_status");
    r
}

/// `labels` with every seed field that has no label yet labelled by `source`.
pub open spec fn seeded(
    labels: Map<Seq<char>, CatalogSourceView>,
    source: CatalogSourceView,
) -> Map<Seq<char>, CatalogSourceView> {
    Map::new(
        |f: Seq<char>| labels.contains_key(f) || seed_fields().contains(f),
        |f: Seq<char>| if labels.contains_key(f) {
            labels[f]
        } else {
            source
        },
    )
}

impl ModelEntry {
    /// Validates exact-key and limit invariants.
    pub fn validate(&self) -> (r: Result<(), LlmError>)
        ensures
            entry_checked(self@, r),
    {
        if self.key.provider_id.as_str().unicode_len() == 0
            || self.key.product_id.as_str().unicode_len() == 0 {
            return Err(configuration("catalog key is incomplete"));
        }
        if blank(self.display_name.as_str()) {
            return Err(configuration("catalog display name must not be empty"));
        }
        self.limits.validate()?;
        if self.default_max_output_tokens == Some(0u32) {
            return Err(configuration("catalog default output limit must be positive"));
        }
        if let (Some(default), Some(maximum)) = (
            self.default_max_output_tokens,
            self.limits.max_output_tokens,
        ) {
            if default > maximum {
                return Err(
                    configuration("catalog default output tokens exceed the exact model limit"),
                );
            }
        }
        Ok(())
    }

    /// Returns the evidence source for one stable field path.
    pub fn field_source(&self, field: &str) -> (r: Option<&CatalogSource>)
        ensures
            match r {
                Some(source) => self@.provenance.contains_key(field@) && source@
                    == self@.provenance[field@],
                None => !self@.provenance.contains_key(field@),
            },
    {
        self.provenance.get(field)
    }

    /// Labels every seed field that has no label yet with the entry's own source.
    pub fn seed_provenance(&mut self)
        ensures
            final(self)@ == (ModelEntryView {
                provenance: seeded(old(self)@.provenance, old(self)@.source),
                ..old(self)@
            }),
    {
        let fields = seed_fields_exec();
        let ghost labels = self.provenance@;
        let ghost source = self.source@;
        let ghost start = *self;
        let mut i: usize = 0;
        while i < fields.len()
            invariant
                fields@.len() == seed_fields().len(),
                forall|j: int| 0 <= j < fields@.len() ==> #[trigger] fields@[j]@ == seed_fields()[j],
                i <= fields@.len(),
                self@ == (ModelEntryView { provenance: self@.provenance, ..start@ }),
                self.source@ == source,
                self@.provenance == Map::new(
                    |f: Seq<char>| labels.contains_key(f) || seed_fields().take(i as int).contains(f),
                    |f: Seq<char>| if labels.contains_key(f) {
                        labels[f]
                    } else {
                        source
                    },
                ),
            decreases fields.len() - i,
        {
            let copy = self.source.clone();
            let ghost seeds = seed_fields();
            proof {
                assert forall|f: Seq<char>| #[trigger] seeds.take(i + 1).contains(f) == (seeds.take(
                    i as int,
                ).contains(f) || f == seeds[i as int]) by {
                    if seeds.take(i + 1).contains(f) {
                        let j = choose|j: int| 0 <= j < i + 1 && #[trigger] seeds.take(i + 1)[j] == f;
                        if j < i {
                            assert(seeds.take(i as int)[j] == f);
                        }
                    }
                    if seeds.take(i as int).contains(f) {
                        let j = choose|j: int| 0 <= j < i && #[trigger] seeds.take(i as int)[j] == f;
                        assert(seeds.take(i + 1)[j] == f);
                    }
                    if f == seeds[i as int] {
                        assert(seeds.take(i + 1)[i as int] == f);
                    }
                }
            }
            self.provenance.insert_if_absent(fields[i], copy);
            proof {
                assert(self@.provenance =~= Map::new(
                    |f: Seq<char>|
                        labels.contains_key(f) || seed_fields().take(i + 1).contains(f),
                    |f: Seq<char>| if labels.contains_key(f) {
                        labels[f]
                    } else {
                        source
                    },
                ));
            }
            i = i + 1;
        }
        proof {
            assert(seed_fields().take(seed_fields().len() as int) =~= seed_fields());
            assert(self@.provenance =~= seeded(labels, source));
        }
    }
}

} // verus!
