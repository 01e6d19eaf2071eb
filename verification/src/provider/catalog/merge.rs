//! Deterministic catalog merge and exact-model resolution.

use vstd::prelude::*;

use crate::domain::{CapabilityStatus, ReasoningEffortSupport};

use crate::error::{configuration, is_configuration, LlmError};

use super::entry::{
    entry_rejection, key_lt, lemma_key_lt_order, seeded, CatalogCapabilities, KeyOrder, ModelEntry,
    ModelEntryView, ModelKey, ModelKeyView, ModelLimits,
};
use super::source::CatalogSourceView;

verus! {

/// The label an overlay entry carries for `field`: its own field label, else its source.
pub open spec fn label_of(overlay: ModelEntryView, field: Seq<char>) -> CatalogSourceView {
    if overlay.provenance.contains_key(field) {
        overlay.provenance[field]
    } else {
        overlay.source
    }
}

/// `labels` with every field of `fields` relabelled from `overlay`.
pub open spec fn relabelled(
    labels: Map<Seq<char>, CatalogSourceView>,
    overlay: ModelEntryView,
    fields: Set<Seq<char>>,
) -> Map<Seq<char>, CatalogSourceView> {
    Map::new(
        |f: Seq<char>| labels.contains_key(f) || fields.contains(f),
        |f: Seq<char>| if fields.contains(f) {
            label_of(overlay, f)
        } else {
            labels[f]
        },
    )
}

/// Relabelling with two field sets in turn relabels with their union.
pub proof fn lemma_relabel_union(
    labels: Map<Seq<char>, CatalogSourceView>,
    overlay: ModelEntryView,
    a: Set<Seq<char>>,
    b: Set<Seq<char>>,
)
    ensures
        relabelled(relabelled(labels, overlay, a), overlay, b) == relabelled(
            labels,
            overlay,
            a.union(b),
        ),
{
    assert(relabelled(relabelled(labels, overlay, a), overlay, b) =~= relabelled(
        labels,
        overlay,
        a.union(b),
    ));
}

/// The single field `field` when `apply` holds, otherwise no field.
pub open spec fn field_if(field: Seq<char>, apply: bool) -> Set<Seq<char>> {
    if apply {
        set![field]
    } else {
        Set::empty()
    }
}

/// A capability status overlays a base one unless it is unknown.
pub open spec fn overlay_status(base: CapabilityStatus, overlay: CapabilityStatus) -> CapabilityStatus {
    if overlay != CapabilityStatus::Unknown {
        overlay
    } else {
        base
    }
}

/// An optional value overlays a base one when present.
pub open spec fn overlay_option<T>(base: Option<T>, overlay: Option<T>) -> Option<T> {
    if overlay is Some {
        overlay
    } else {
        base
    }
}

/// Capabilities after an overlay: only explicitly known facts replace the base.
pub open spec fn merged_capabilities(
    base: CatalogCapabilities,
    overlay: CatalogCapabilities,
) -> CatalogCapabilities {
    CatalogCapabilities {
        function_tools: overlay_status(base.function_tools, overlay.function_tools),
        tool_choice_required: overlay_status(base.tool_choice_required, overlay.tool_choice_required),
        tool_choice_specific: overlay_status(base.tool_choice_specific, overlay.tool_choice_specific),
        parallel_tool_calls: overlay_status(base.parallel_tool_calls, overlay.parallel_tool_calls),
        strict_tools: overlay_status(base.strict_tools, overlay.strict_tools),
        vision_input: overlay_status(base.vision_input, overlay.vision_input),
        image_detail_original: overlay_status(
            base.image_detail_original,
            overlay.image_detail_original,
        ),
        response_format_json_object: overlay_status(
            base.response_format_json_object,
            overlay.response_format_json_object,
        ),
        response_format_json_schema: overlay_status(
            base.response_format_json_schema,
            overlay.response_format_json_schema,
        ),
        reasoning_efforts: if overlay.reasoning_efforts != ReasoningEffortSupport::Unknown {
            overlay.reasoning_efforts
        } else {
            base.reasoning_efforts
        },
        adaptive_thinking: overlay_status(base.adaptive_thinking, overlay.adaptive_thinking),
        adaptive_thinking_effort: overlay_status(
            base.adaptive_thinking_effort,
            overlay.adaptive_thinking_effort,
        ),
    }
}

/// The tool and input capability field paths an overlay states explicitly.
pub open spec fn capability_fields_head(o: CatalogCapabilities) -> Set<Seq<char>> {
    field_if("capabilities.function_tools"@, o.function_tools != CapabilityStatus::Unknown).union(
        field_if("capabilities.tool_choice_required"@, o.tool_choice_required != CapabilityStatus::Unknown),
    ).union(
        field_if("capabilities.tool_choice_specific"@, o.tool_choice_specific != CapabilityStatus::Unknown),
    ).union(
        field_if("capabilities.parallel_tool_calls"@, o.parallel_tool_calls != CapabilityStatus::Unknown),
    ).union(
        field_if("capabilities.strict_tools"@, o.strict_tools != CapabilityStatus::Unknown),
    ).union(
        field_if("capabilities.vision_input"@, o.vision_input != CapabilityStatus::Unknown),
    )
}

/// The output and reasoning capability field paths an overlay states explicitly.
pub open spec fn capability_fields_tail(o: CatalogCapabilities) -> Set<Seq<char>> {
    field_if("capabilities.image_detail_original"@, o.image_detail_original != CapabilityStatus::Unknown).union(
        field_if("capabilities.response_format_json_object"@, o.response_format_json_object != CapabilityStatus::Unknown),
    ).union(
        field_if("capabilities.response_format_json_schema"@, o.response_format_json_schema != CapabilityStatus::Unknown),
    ).union(
        field_if("capabilities.reasoning_efforts"@, o.reasoning_efforts != ReasoningEffortSupport::Unknown),
    ).union(
        field_if("capabilities.adaptive_thinking"@, o.adaptive_thinking != CapabilityStatus::Unknown),
    ).union(
        field_if("capabilities.adaptive_thinking_effort"@, o.adaptive_thinking_effort != CapabilityStatus::Unknown),
    )
}

/// The capability field paths an overlay relabels: those it states explicitly.
pub open spec fn capability_fields(o: CatalogCapabilities) -> Set<Seq<char>> {
    capability_fields_head(o).union(capability_fields_tail(o))
}

/// Limits after an overlay: only declared limits replace the base.
pub open spec fn merged_limits(base: ModelLimits, overlay: ModelLimits) -> ModelLimits {
    ModelLimits {
        context_window_tokens: overlay_option(
            base.context_window_tokens,
            overlay.context_window_tokens,
        ),
        max_output_tokens: overlay_option(base.max_output_tokens, overlay.max_output_tokens),
        max_messages: overlay_option(base.max_messages, overlay.max_messages),
        max_tools: overlay_option(base.max_tools, overlay.max_tools),
        max_images: overlay_option(base.max_images, overlay.max_images),
        max_schema_bytes: overlay_option(base.max_schema_bytes, overlay.max_schema_bytes),
    }
}

/// The limit field paths an overlay relabels: those it declares.
pub open spec fn limit_fields(o: ModelLimits) -> Set<Seq<char>> {
    field_if("limits.context_window_tokens"@, o.context_window_tokens is Some).union(
        field_if("limits.max_output_tokens"@, o.max_output_tokens is Some),
    ).union(field_if("limits.max_messages"@, o.max_messages is Some)).union(
        field_if("limits.max_tools"@, o.max_tools is Some),
    ).union(field_if("limits.max_images"@, o.max_images is Some)).union(
        field_if("limits.max_schema_bytes"@, o.max_schema_bytes is Some),
    )
}

/// Every field path an overlay entry relabels.
pub open spec fn overlay_fields(o: ModelEntryView) -> Set<Seq<char>> {
    set!["provider_model_id"@, "wire_model_value"@, "display_name"@, "protocol_id"@].union(
        field_if("deployment_id"@, o.deployment_id is Some),
    ).union(capability_fields(o.capabilities)).union(limit_fields(o.limits)).union(
        field_if("default_max_output_tokens"@, o.default_max_output_tokens is Some),
    ).union(field_if("pricing"@, o.pricing is Some)).union(
        field_if("support_status"@, o.support_status != CapabilityStatus::Unknown),
    )
}

/// An entry after `overlay` is laid over `base`: identity and wire fields come from the
/// overlay, other facts only where the overlay states them, and each overlaid field
/// carries the overlay's label.
pub open spec fn merged_entry(base: ModelEntryView, overlay: ModelEntryView) -> ModelEntryView {
    ModelEntryView {
        key: base.key,
        provider_model_id: overlay.provider_model_id,
        deployment_id: overlay_option(base.deployment_id, overlay.deployment_id),
        wire_model_value: overlay.wire_model_value,
        display_name: if overlay.display_name.len() > 0 {
            overlay.display_name
        } else {
            base.display_name
        },
        protocol_id: overlay.protocol_id,
        capabilities: merged_capabilities(base.capabilities, overlay.capabilities),
        limits: merged_limits(base.limits, overlay.limits),
        default_max_output_tokens: overlay_option(
            base.default_max_output_tokens,
            overlay.default_max_output_tokens,
        ),
        pricing: overlay_option(base.pricing, overlay.pricing),
        source: overlay.source,
        support_status: overlay_status(base.support_status, overlay.support_status),
        provenance: relabelled(base.provenance, overlay, overlay_fields(overlay)),
    }
}

/// Relabels `field` of `base` from `overlay` when `apply` holds.
fn copy_source_if(base: &mut ModelEntry, overlay: &ModelEntry, field: &str, apply: bool)
    ensures
        final(base)@ == (ModelEntryView {
            provenance: relabelled(old(base)@.provenance, overlay@, field_if(field@, apply)),
            ..old(base)@
        }),
{
    let ghost before = base@;
    if apply {
        let source = match overlay.field_source(field) {
            Some(s) => s.clone(),
            None => overlay.source.clone(),
        };
        base.provenance.insert(field, source);
        proof {
            assert(base@.provenance =~= relabelled(before.provenance, overlay@, set![field@]));
        }
    } else {
        proof {
            assert(base@.provenance =~= relabelled(before.provenance, overlay@, Set::empty()));
        }
    }
}

fn overlay_status_exec(base: CapabilityStatus, overlay: CapabilityStatus) -> (r: CapabilityStatus)
    ensures
        r == overlay_status(base, overlay),
{
    if overlay != CapabilityStatus::Unknown {
        overlay
    } else {
        base
    }
}

fn merge_capability_values(base: CatalogCapabilities, overlay: CatalogCapabilities) -> (r:
    CatalogCapabilities)
    ensures
        r == merged_capabilities(base, overlay),
{
    CatalogCapabilities {
        function_tools: overlay_status_exec(base.function_tools, overlay.function_tools),
        tool_choice_required: overlay_status_exec(base.tool_choice_required, overlay.tool_choice_required),
        tool_choice_specific: overlay_status_exec(base.tool_choice_specific, overlay.tool_choice_specific),
        parallel_tool_calls: overlay_status_exec(base.parallel_tool_calls, overlay.parallel_tool_calls),
        strict_tools: overlay_status_exec(base.strict_tools, overlay.strict_tools),
        vision_input: overlay_status_exec(base.vision_input, overlay.vision_input),
        image_detail_original: overlay_status_exec(base.image_detail_original, overlay.image_detail_original),
        response_format_json_object: overlay_status_exec(base.response_format_json_object, overlay.response_format_json_object),
        response_format_json_schema: overlay_status_exec(base.response_format_json_schema, overlay.response_format_json_schema),
        reasoning_efforts: if overlay.reasoning_efforts != ReasoningEffortSupport::Unknown {
            overlay.reasoning_efforts
        } else {
            base.reasoning_efforts
        },
        adaptive_thinking: overlay_status_exec(base.adaptive_thinking, overlay.adaptive_thinking),
        adaptive_thinking_effort: overlay_status_exec(base.adaptive_thinking_effort, overlay.adaptive_thinking_effort),
    }
}

/// Relabels the tool and input capability fields that `overlay` states explicitly.
fn relabel_capabilities_head(base: &mut ModelEntry, overlay: &ModelEntry)
    ensures
        final(base)@ == (ModelEntryView {
            provenance: relabelled(
                old(base)@.provenance,
                overlay@,
                capability_fields_head(overlay@.capabilities),
            ),
            ..old(base)@
        }),
{
    let ghost labels = base@.provenance;
    let ghost mut fields: Set<Seq<char>> = Set::empty();
    let apply = overlay.capabilities.function_tools != CapabilityStatus::Unknown;
    copy_source_if(base, overlay, "capabilities.function_tools", apply);
    proof {
        fields = field_if("capabilities.function_tools"@, apply);
    }
    let apply = overlay.capabilities.tool_choice_required != CapabilityStatus::Unknown;
    copy_source_if(base, overlay, "capabilities.tool_choice_required", apply);
    proof {
        lemma_relabel_union(labels, overlay@, fields, field_if("capabilities.tool_choice_required"@, apply));
        fields = fields.union(field_if("capabilities.tool_choice_required"@, apply));
    }
    let apply = overlay.capabilities.tool_choice_specific != CapabilityStatus::Unknown;
    copy_source_if(base, overlay, "capabilities.tool_choice_specific", apply);
    proof {
        lemma_relabel_union(labels, overlay@, fields, field_if("capabilities.tool_choice_specific"@, apply));
        fields = fields.union(field_if("capabilities.tool_choice_specific"@, apply));
    }
    let apply = overlay.capabilities.parallel_tool_calls != CapabilityStatus::Unknown;
    copy_source_if(base, overlay, "capabilities.parallel_tool_calls", apply);
    proof {
        lemma_relabel_union(labels, overlay@, fields, field_if("capabilities.parallel_tool_calls"@, apply));
        fields = fields.union(field_if("capabilities.parallel_tool_calls"@, apply));
    }
    let apply = overlay.capabilities.strict_tools != CapabilityStatus::Unknown;
    copy_source_if(base, overlay, "capabilities.strict_tools", apply);
    proof {
        lemma_relabel_union(labels, overlay@, fields, field_if("capabilities.strict_tools"@, apply));
        fields = fields.union(field_if("capabilities.strict_tools"@, apply));
    }
    let apply = overlay.capabilities.vision_input != CapabilityStatus::Unknown;
    copy_source_if(base, overlay, "capabilities.vision_input", apply);
    proof {
        lemma_relabel_union(labels, overlay@, fields, field_if("capabilities.vision_input"@, apply));
        fields = fields.union(field_if("capabilities.vision_input"@, apply));
    }
}

/// Relabels the output and reasoning capability fields that `overlay` states explicitly.
fn relabel_capabilities_tail(base: &mut ModelEntry, overlay: &ModelEntry)
    ensures
        final(base)@ == (ModelEntryView {
            provenance: relabelled(
                old(base)@.provenance,
                overlay@,
                capability_fields_tail(overlay@.capabilities),
            ),
            ..old(base)@
        }),
{
    let ghost labels = base@.provenance;
    let ghost mut fields: Set<Seq<char>> = Set::empty();
    let apply = overlay.capabilities.image_detail_original != CapabilityStatus::Unknown;
    copy_source_if(base, overlay, "capabilities.image_detail_original", apply);
    proof {
        fields = field_if("capabilities.image_detail_original"@, apply);
    }
    let apply = overlay.capabilities.response_format_json_object != CapabilityStatus::Unknown;
    copy_source_if(base, overlay, "capabilities.response_format_json_object", apply);
    proof {
        lemma_relabel_union(labels, overlay@, fields, field_if("capabilities.response_format_json_object"@, apply));
        fields = fields.union(field_if("capabilities.response_format_json_object"@, apply));
    }
    let apply = overlay.capabilities.response_format_json_schema != CapabilityStatus::Unknown;
    copy_source_if(base, overlay, "capabilities.response_format_json_schema", apply);
    proof {
        lemma_relabel_union(labels, overlay@, fields, field_if("capabilities.response_format_json_schema"@, apply));
        fields = fields.union(field_if("capabilities.response_format_json_schema"@, apply));
    }
    let apply = overlay.capabilities.reasoning_efforts != ReasoningEffortSupport::Unknown;
    copy_source_if(base, overlay, "capabilities.reasoning_efforts", apply);
    proof {
        lemma_relabel_union(labels, overlay@, fields, field_if("capabilities.reasoning_efforts"@, apply));
        fields = fields.union(field_if("capabilities.reasoning_efforts"@, apply));
    }
    let apply = overlay.capabilities.adaptive_thinking != CapabilityStatus::Unknown;
    copy_source_if(base, overlay, "capabilities.adaptive_thinking", apply);
    proof {
        lemma_relabel_union(labels, overlay@, fields, field_if("capabilities.adaptive_thinking"@, apply));
        fields = fields.union(field_if("capabilities.adaptive_thinking"@, apply));
    }
    let apply = overlay.capabilities.adaptive_thinking_effort != CapabilityStatus::Unknown;
    copy_source_if(base, overlay, "capabilities.adaptive_thinking_effort", apply);
    proof {
        lemma_relabel_union(labels, overlay@, fields, field_if("capabilities.adaptive_thinking_effort"@, apply));
        fields = fields.union(field_if("capabilities.adaptive_thinking_effort"@, apply));
    }
}

/// Overlays the explicitly known capability facts of `overlay` onto `base`.
fn merge_capabilities(base: &mut ModelEntry, overlay: &ModelEntry)
    ensures
        final(base)@ == (ModelEntryView {
            capabilities: merged_capabilities(old(base)@.capabilities, overlay@.capabilities),
            provenance: relabelled(
                old(base)@.provenance,
                overlay@,
                capability_fields(overlay@.capabilities),
            ),
            ..old(base)@
        }),
{
    let ghost labels = base@.provenance;
    base.capabilities = merge_capability_values(base.capabilities, overlay.capabilities);
    relabel_capabilities_head(base, overlay);
    relabel_capabilities_tail(base, overlay);
    proof {
        lemma_relabel_union(
            labels,
            overlay@,
            capability_fields_head(overlay@.capabilities),
            capability_fields_tail(overlay@.capabilities),
        );
    }
}

/// Overlays the declared limits of `overlay` onto `base`.
fn merge_limits(base: &mut ModelEntry, overlay: &ModelEntry)
    ensures
        final(base)@ == (ModelEntryView {
            limits: merged_limits(old(base)@.limits, overlay@.limits),
            provenance: relabelled(old(base)@.provenance, overlay@, limit_fields(overlay@.limits)),
            ..old(base)@
        }),
{
    let ghost labels = base@.provenance;
    let ghost mut fields: Set<Seq<char>> = Set::empty();
    let apply = overlay.limits.context_window_tokens.is_some();
    if apply {
        base.limits.context_window_tokens = overlay.limits.context_window_tokens;
    }
    copy_source_if(base, overlay, "limits.context_window_tokens", apply);
    proof {
        fields = field_if("limits.context_window_tokens"@, apply);
    }
    let apply = overlay.limits.max_output_tokens.is_some();
    if apply {
        base.limits.max_output_tokens = overlay.limits.max_output_tokens;
    }
    copy_source_if(base, overlay, "limits.max_output_tokens", apply);
    proof {
        lemma_relabel_union(labels, overlay@, fields, field_if("limits.max_output_tokens"@, apply));
        fields = fields.union(field_if("limits.max_output_tokens"@, apply));
    }
    let apply = overlay.limits.max_messages.is_some();
    if apply {
        base.limits.max_messages = overlay.limits.max_messages;
    }
    copy_source_if(base, overlay, "limits.max_messages", apply);
    proof {
        lemma_relabel_union(labels, overlay@, fields, field_if("limits.max_messages"@, apply));
        fields = fields.union(field_if("limits.max_messages"@, apply));
    }
    let apply = overlay.limits.max_tools.is_some();
    if apply {
        base.limits.max_tools = overlay.limits.max_tools;
    }
    copy_source_if(base, overlay, "limits.max_tools", apply);
    proof {
        lemma_relabel_union(labels, overlay@, fields, field_if("limits.max_tools"@, apply));
        fields = fields.union(field_if("limits.max_tools"@, apply));
    }
    let apply = overlay.limits.max_images.is_some();
    if apply {
        base.limits.max_images = overlay.limits.max_images;
    }
    copy_source_if(base, overlay, "limits.max_images", apply);
    proof {
        lemma_relabel_union(labels, overlay@, fields, field_if("limits.max_images"@, apply));
        fields = fields.union(field_if("limits.max_images"@, apply));
    }
    let apply = overlay.limits.max_schema_bytes.is_some();
    if apply {
        base.limits.max_schema_bytes = overlay.limits.max_schema_bytes;
    }
    copy_source_if(base, overlay, "limits.max_schema_bytes", apply);
    proof {
        lemma_relabel_union(labels, overlay@, fields, field_if("limits.max_schema_bytes"@, apply));
        fields = fields.union(field_if("limits.max_schema_bytes"@, apply));
    }

}

/// The identity and wire field paths an overlay always relabels, and its deployment when
/// it names one.
pub open spec fn identity_fields(o: ModelEntryView) -> Set<Seq<char>> {
    set!["provider_model_id"@, "wire_model_value"@, "display_name"@, "protocol_id"@].union(
        field_if("deployment_id"@, o.deployment_id is Some),
    )
}

/// Takes identity and wire fields from `overlay`, keeping the base display name when the
/// overlay's is empty and the base deployment when the overlay names none.
fn merge_identity(base: &mut ModelEntry, overlay: &ModelEntry)
    ensures
        final(base)@ == (ModelEntryView {
            provider_model_id: overlay@.provider_model_id,
            deployment_id: overlay_option(old(base)@.deployment_id, overlay@.deployment_id),
            wire_model_value: overlay@.wire_model_value,
            display_name: if overlay@.display_name.len() > 0 {
                overlay@.display_name
            } else {
                old(base)@.display_name
            },
            protocol_id: overlay@.protocol_id,
            provenance: relabelled(old(base)@.provenance, overlay@, identity_fields(overlay@)),
            ..old(base)@
        }),
{
    let ghost labels = base@.provenance;
    base.provider_model_id = overlay.provider_model_id.clone();
    if let Some(deployment) = &overlay.deployment_id {
        base.deployment_id = Some(deployment.clone());
    }
    base.wire_model_value = overlay.wire_model_value.clone();
    if overlay.display_name.unicode_len() > 0 {
        base.display_name = overlay.display_name.clone();
    }
    base.protocol_id = overlay.protocol_id.clone();
    copy_source_if(base, overlay, "provider_model_id", true);
    copy_source_if(base, overlay, "wire_model_value", true);
    copy_source_if(base, overlay, "display_name", true);
    copy_source_if(base, overlay, "protocol_id", true);
    let named = overlay.deployment_id.is_some();
    copy_source_if(base, overlay, "deployment_id", named);
    proof {
        let a = field_if("provider_model_id"@, true);
        let b = field_if("wire_model_value"@, true);
        let c = field_if("display_name"@, true);
        let d = field_if("protocol_id"@, true);
        let e = field_if("deployment_id"@, named);
        lemma_relabel_union(labels, overlay@, a, b);
        lemma_relabel_union(labels, overlay@, a.union(b), c);
        lemma_relabel_union(labels, overlay@, a.union(b).union(c), d);
        lemma_relabel_union(labels, overlay@, a.union(b).union(c).union(d), e);
        assert(a.union(b).union(c).union(d).union(e) =~= identity_fields(overlay@));
    }
}

/// Lays `overlay` over `base`.
fn merge_entry(base: &mut ModelEntry, overlay: &ModelEntry)
    ensures
        final(base)@ == merged_entry(old(base)@, overlay@),
{
    let ghost labels = base@.provenance;
    let ghost o = overlay@;
    merge_identity(base, overlay);
    merge_capabilities(base, overlay);
    merge_limits(base, overlay);
    if overlay.default_max_output_tokens.is_some() {
        base.default_max_output_tokens = overlay.default_max_output_tokens;
    }
    let declared = overlay.default_max_output_tokens.is_some();
    copy_source_if(base, overlay, "default_max_output_tokens", declared);
    if overlay.pricing.is_some() {
        base.pricing = overlay.pricing;
    }
    let priced = overlay.pricing.is_some();
    copy_source_if(base, overlay, "pricing", priced);
    base.source = overlay.source.clone();
    let stated = overlay.support_status != CapabilityStatus::Unknown;
    if stated {
        base.support_status = overlay.support_status;
    }
    copy_source_if(base, overlay, "support_status", stated);
    proof {
        let i = identity_fields(o);
        let c = capability_fields(o.capabilities);
        let l = limit_fields(o.limits);
        let d = field_if("default_max_output_tokens"@, declared);
        let p = field_if("pricing"@, priced);
        let s = field_if("support_status"@, stated);
        lemma_relabel_union(labels, o, i, c);
        lemma_relabel_union(labels, o, i.union(c), l);
        lemma_relabel_union(labels, o, i.union(c).union(l), d);
        lemma_relabel_union(labels, o, i.union(c).union(l).union(d), p);
        lemma_relabel_union(labels, o, i.union(c).union(l).union(d).union(p), s);
        assert(i.union(c).union(l).union(d).union(p).union(s) =~= overlay_fields(o));
    }
}

/// An entry as a catalog stores it: every seed field labelled.
pub open spec fn seeded_entry(e: ModelEntryView) -> ModelEntryView {
    ModelEntryView { provenance: seeded(e.provenance, e.source), ..e }
}

/// `entries[i]` carries key `key`.
pub open spec fn key_at(entries: Seq<ModelEntry>, i: int, key: ModelKeyView) -> bool {
    0 <= i < entries.len() && entries[i].key@ == key
}

/// Keys strictly increase along `entries`.
pub open spec fn keys_sorted(entries: Seq<ModelEntry>) -> bool {
    forall|i: int, j: int| 0 <= i < j < entries.len() ==> key_lt(entries[i].key@, entries[j].key@)
}

/// The map from key to entry that `entries` holds.
pub open spec fn catalog_map(entries: Seq<ModelEntry>) -> Map<ModelKeyView, ModelEntryView> {
    Map::new(
        |key: ModelKeyView| exists|i: int| key_at(entries, i, key),
        |key: ModelKeyView| entries[choose|i: int| key_at(entries, i, key)]@,
    )
}

/// In key-sorted entries, each entry is what the map holds for its key.
pub proof fn lemma_catalog_entry(entries: Seq<ModelEntry>, i: int)
    requires
        keys_sorted(entries),
        0 <= i < entries.len(),
    ensures
        catalog_map(entries).contains_key(entries[i].key@),
        catalog_map(entries)[entries[i].key@] == entries[i]@,
{
    let key = entries[i].key@;
    assert(key_at(entries, i, key));
    let j = choose|j: int| key_at(entries, j, key);
    lemma_key_lt_order(key, key, key);
    if j < i {
        assert(key_lt(entries[j].key@, entries[i].key@));
    } else if i < j {
        assert(key_lt(entries[i].key@, entries[j].key@));
    }
}

/// Replacing the entry at `k` by one with the same key changes the map only there.
proof fn lemma_catalog_update(before: Seq<ModelEntry>, k: int, e: ModelEntry)
    requires
        keys_sorted(before),
        0 <= k < before.len(),
        e.key@ == before[k].key@,
    ensures
        keys_sorted(before.update(k, e)),
        catalog_map(before.update(k, e)) == catalog_map(before).insert(e.key@, e@),
{
    let after = before.update(k, e);
    assert(keys_sorted(after)) by {
        assert forall|i: int, j: int| 0 <= i < j < after.len() implies key_lt(
            after[i].key@,
            after[j].key@,
        ) by {
            assert(key_lt(before[i].key@, before[j].key@));
        }
    }
    let m1 = catalog_map(before);
    let m2 = catalog_map(after);
    lemma_catalog_entry(after, k);
    assert forall|key: ModelKeyView| key != e.key@ implies (#[trigger] m2.contains_key(key)
        == m1.contains_key(key)) && (m2.contains_key(key) ==> m2[key] == m1[key]) by {
        if m2.contains_key(key) {
            let j = choose|j: int| key_at(after, j, key);
            assert(key_at(before, j, key));
            lemma_catalog_entry(after, j);
            lemma_catalog_entry(before, j);
        }
        if m1.contains_key(key) {
            let j = choose|j: int| key_at(before, j, key);
            assert(key_at(after, j, key));
        }
    }
    assert(m2 =~= m1.insert(e.key@, e@));
}

/// A key that orders after every entry before `p` and before the entry at `p` is absent.
proof fn lemma_catalog_absent(before: Seq<ModelEntry>, p: int, key: ModelKeyView)
    requires
        keys_sorted(before),
        0 <= p <= before.len(),
        forall|m: int| 0 <= m < p ==> key_lt(#[trigger] before[m].key@, key),
        p < before.len() ==> key_lt(key, before[p].key@),
    ensures
        forall|j: int| 0 <= j < before.len() ==> #[trigger] before[j].key@ != key,
        !catalog_map(before).contains_key(key),
{
    assert forall|j: int| 0 <= j < before.len() implies #[trigger] before[j].key@ != key by {
        lemma_key_lt_order(before[j].key@, key, key);
        if j > p {
            assert(key_lt(before[p].key@, before[j].key@));
            lemma_key_lt_order(key, before[p].key@, before[j].key@);
        }
    }
    if catalog_map(before).contains_key(key) {
        let j = choose|j: int| key_at(before, j, key);
        assert(before[j].key@ != key);
    }
}

/// Inserting an entry with a new key at its sorted position keeps the keys sorted and adds
/// it to the map.
proof fn lemma_catalog_insert(before: Seq<ModelEntry>, p: int, e: ModelEntry)
    requires
        keys_sorted(before),
        0 <= p <= before.len(),
        forall|m: int| 0 <= m < p ==> key_lt(#[trigger] before[m].key@, e.key@),
        p < before.len() ==> key_lt(e.key@, before[p].key@),
    ensures
        keys_sorted(before.insert(p, e)),
        !catalog_map(before).contains_key(e.key@),
        catalog_map(before.insert(p, e)) == catalog_map(before).insert(e.key@, e@),
{
    let after = before.insert(p, e);
    let key = e.key@;
    lemma_catalog_absent(before, p, key);
    assert forall|i: int, j: int| 0 <= i < j < after.len() implies key_lt(
        after[i].key@,
        after[j].key@,
    ) by {
        if i < p && j == p {
        } else if i == p {
            if j > p + 1 {
                assert(key_lt(before[p].key@, before[j - 1].key@));
                lemma_key_lt_order(key, before[p].key@, before[j - 1].key@);
            }
        } else if i < p && j > p {
            assert(key_lt(before[i].key@, before[j - 1].key@));
        } else if i > p {
            assert(key_lt(before[i - 1].key@, before[j - 1].key@));
        } else {
            assert(key_lt(before[i].key@, before[j].key@));
        }
    }
    let m1 = catalog_map(before);
    let m2 = catalog_map(after);
    assert(after[p] == e);
    lemma_catalog_entry(after, p);
    assert forall|k: ModelKeyView| k != key implies (#[trigger] m2.contains_key(k) == m1.contains_key(
        k,
    )) && (m2.contains_key(k) ==> m2[k] == m1[k]) by {
        if m2.contains_key(k) {
            let j = choose|j: int| key_at(after, j, k);
            assert(j != p);
            let b = if j < p {
                j
            } else {
                j - 1
            };
            assert(after[j] == before[b]);
            assert(key_at(before, b, k));
            lemma_catalog_entry(after, j);
            lemma_catalog_entry(before, b);
        }
        if m1.contains_key(k) {
            let j = choose|j: int| key_at(before, j, k);
            let a = if j < p {
                j
            } else {
                j + 1
            };
            assert(after[a] == before[j]);
            assert(key_at(after, a, k));
        }
    }
    assert(m2 =~= m1.insert(key, e@));
}

/// What inserting `e` into a catalog holding `acc` gives: the new contents or the error
/// message.
pub open spec fn insert_step(acc: Map<ModelKeyView, ModelEntryView>, e: ModelEntryView) -> Result<
    Map<ModelKeyView, ModelEntryView>,
    Seq<char>,
> {
    match entry_rejection(e) {
        Some(message) => Err(message),
        None => if acc.contains_key(e.key) {
            Err("duplicate exact catalog key"@)
        } else {
            Ok(acc.insert(e.key, seeded_entry(e)))
        },
    }
}

/// Inserting `entries` in order into a catalog holding `acc`.
pub open spec fn insert_all(
    acc: Map<ModelKeyView, ModelEntryView>,
    entries: Seq<ModelEntryView>,
) -> Result<Map<ModelKeyView, ModelEntryView>, Seq<char>>
    decreases entries.len(),
{
    if entries.len() == 0 {
        Ok(acc)
    } else {
        match insert_step(acc, entries[0]) {
            Err(message) => Err(message),
            Ok(next) => insert_all(next, entries.drop_first()),
        }
    }
}

/// `r` reports the outcome `outcome` of building catalog contents.
pub open spec fn catalog_outcome(
    outcome: Result<Map<ModelKeyView, ModelEntryView>, Seq<char>>,
    r: Result<ModelCatalog, LlmError>,
) -> bool {
    match outcome {
        Ok(contents) => r matches Ok(c) && c@ == contents,
        Err(message) => r matches Err(e) && is_configuration(e, message),
    }
}

/// The views of a sequence of entries.
pub open spec fn entry_views(entries: Seq<ModelEntry>) -> Seq<ModelEntryView> {
    entries.map_values(|e: ModelEntry| e@)
}

/// Immutable catalog snapshot used by a provider runtime.
#[derive(Debug)]
pub struct ModelCatalog {
    entries: Vec<ModelEntry>,
}

impl View for ModelCatalog {
    type V = Map<ModelKeyView, ModelEntryView>;

    closed spec fn view(&self) -> Map<ModelKeyView, ModelEntryView> {
        catalog_map(self.entries@)
    }
}

impl ModelCatalog {
    #[verifier::type_invariant]
    spec fn sorted(self) -> bool {
        keys_sorted(self.entries@)
    }

    /// The entries in key order.
    pub closed spec fn spec_entries(&self) -> Seq<ModelEntry> {
        self.entries@
    }
}

impl Default for ModelCatalog {
    fn default() -> (r: Self)
        ensures
            r@ == Map::<ModelKeyView, ModelEntryView>::empty(),
            r.spec_entries() == Seq::<ModelEntry>::empty(),
    {
        let r = ModelCatalog { entries: Vec::new() };
        assert(r@ =~= Map::<ModelKeyView, ModelEntryView>::empty());
        r
    }
}

fn key_position(entries: &Vec<ModelEntry>, key: &ModelKey) -> (r: Result<usize, usize>)
    requires
        keys_sorted(entries@),
    ensures
        match r {
            Ok(i) => i < entries@.len() && entries@[i as int].key@ == key@,
            Err(p) => p <= entries@.len() && (forall|m: int|
                0 <= m < p ==> key_lt(#[trigger] entries@[m].key@, key@)) && (p < entries@.len()
                ==> key_lt(key@, entries@[p as int].key@)),
        },
{
    let mut i: usize = 0;
    while i < entries.len()
        invariant
            i <= entries@.len(),
            forall|m: int| 0 <= m < i ==> key_lt(#[trigger] entries@[m].key@, key@),
        decreases entries.len() - i,
    {
        match key.compare(&entries[i].key) {
            KeyOrder::Same => {
                return Ok(i);
            },
            KeyOrder::Before => {
                return Err(i);
            },
            KeyOrder::After => {},
        }
        i = i + 1;
    }
    Err(i)
}

impl ModelCatalog {
    /// Creates a catalog from validated exact entries.
    pub fn from_entries(entries: Vec<ModelEntry>) -> (r: Result<Self, LlmError>)
        ensures
            catalog_outcome(insert_all(Map::empty(), entry_views(entries@)), r),
    {
        let mut catalog = ModelCatalog::default();
        let mut rest = entries;
        proof {
            assert(entry_views(rest@) =~= entry_views(entries@));
        }
        while rest.len() > 0
            invariant
                insert_all(Map::empty(), entry_views(entries@)) == insert_all(
                    catalog@,
                    entry_views(rest@),
                ),
            decreases rest.len(),
        {
            let ghost before = rest@;
            let entry = rest.remove(0);
            proof {
                assert(entry_views(rest@) =~= entry_views(before).drop_first());
            }
            catalog.insert(entry)?;
        }
        Ok(catalog)
    }

    /// Inserts an exact entry and rejects duplicates.
    pub fn insert(&mut self, entry: ModelEntry) -> (r: Result<(), LlmError>)
        ensures
            match insert_step(old(self)@, entry@) {
                Ok(contents) => r is Ok && final(self)@ == contents,
                Err(message) => r matches Err(e) && is_configuration(e, message) && final(self)@
                    == old(self)@,
            },
    {
        proof {
            use_type_invariant(&*self);
        }
        let mut entry = entry;
        entry.validate()?;
        entry.seed_provenance();
        let mut entries: Vec<ModelEntry> = Vec::new();
        std::mem::swap(&mut entries, &mut self.entries);
        let ghost before = entries@;
        match key_position(&entries, &entry.key) {
            Ok(i) => {
                proof {
                    lemma_catalog_entry(before, i as int);
                }
                self.entries = entries;
                Err(configuration("duplicate exact catalog key"))
            },
            Err(p) => {
                proof {
                    lemma_catalog_insert(before, p as int, entry);
                }
                entries.insert(p, entry);
                self.entries = entries;
                Ok(())
            },
        }
    }

    /// Returns an exact entry.
    pub fn get(&self, key: &ModelKey) -> (r: Option<&ModelEntry>)
        ensures
            match r {
                Some(e) => self@.contains_key(key@) && e@ == self@[key@],
                None => !self@.contains_key(key@),
            },
    {
        proof {
            use_type_invariant(self);
        }
        match key_position(&self.entries, key) {
            Ok(i) => {
                proof {
                    lemma_catalog_entry(self.entries@, i as int);
                }
                Some(&self.entries[i])
            },
            Err(p) => {
                proof {
                    lemma_catalog_absent(self.entries@, p as int, key@);
                }
                None
            },
        }
    }
}

/// What laying `e` over a catalog holding `acc` gives: a known key takes the merged entry,
/// which must stay valid; a new key is inserted.
pub open spec fn merge_step(acc: Map<ModelKeyView, ModelEntryView>, e: ModelEntryView) -> Result<
    Map<ModelKeyView, ModelEntryView>,
    Seq<char>,
> {
    if acc.contains_key(e.key) {
        let merged = merged_entry(acc[e.key], e);
        match entry_rejection(merged) {
            Some(message) => Err(message),
            None => Ok(acc.insert(e.key, merged)),
        }
    } else {
        insert_step(acc, e)
    }
}

/// Laying `entries` in order over a catalog holding `acc`.
pub open spec fn merge_all(
    acc: Map<ModelKeyView, ModelEntryView>,
    entries: Seq<ModelEntryView>,
) -> Result<Map<ModelKeyView, ModelEntryView>, Seq<char>>
    decreases entries.len(),
{
    if entries.len() == 0 {
        Ok(acc)
    } else {
        match merge_step(acc, entries[0]) {
            Err(message) => Err(message),
            Ok(next) => merge_all(next, entries.drop_first()),
        }
    }
}

/// Laying each layer's entries in turn over a catalog holding `acc`.
pub open spec fn merge_layers(
    acc: Map<ModelKeyView, ModelEntryView>,
    layers: Seq<Seq<ModelEntryView>>,
) -> Result<Map<ModelKeyView, ModelEntryView>, Seq<char>>
    decreases layers.len(),
{
    if layers.len() == 0 {
        Ok(acc)
    } else {
        match merge_all(acc, layers[0]) {
            Err(message) => Err(message),
            Ok(next) => merge_layers(next, layers.drop_first()),
        }
    }
}

/// The entries of each catalog, each in key order.
pub open spec fn layer_views(layers: Seq<&ModelCatalog>) -> Seq<Seq<ModelEntryView>> {
    layers.map_values(|c: &ModelCatalog| entry_views(c.spec_entries()))
}

impl ModelCatalog {
    /// Returns deterministic entries in key order.
    pub fn entries(&self) -> (r: &[ModelEntry])
        ensures
            r@ == self.spec_entries(),
            keys_sorted(r@),
            self@ == catalog_map(r@),
    {
        proof {
            use_type_invariant(self);
        }
        self.entries.as_slice()
    }

    /// Resolves an exact entry by provider/product/domain model.
    pub fn resolve(&self, key: &ModelKey) -> (r: Option<&ModelEntry>)
        ensures
            match r {
                Some(e) => self@.contains_key(key@) && e@ == self@[key@],
                None => !self@.contains_key(key@),
            },
    {
        self.get(key)
    }

    fn replace_entry(&mut self, i: usize, e: ModelEntry)
        requires
            i < old(self).spec_entries().len(),
            old(self).spec_entries()[i as int].key@ == e.key@,
        ensures
            final(self)@ == old(self)@.insert(e.key@, e@),
    {
        proof {
            use_type_invariant(&*self);
        }
        let mut entries: Vec<ModelEntry> = Vec::new();
        std::mem::swap(&mut entries, &mut self.entries);
        proof {
            lemma_catalog_update(entries@, i as int, e);
        }
        entries.set(i, e);
        self.entries = entries;
    }

    fn merge_one(&mut self, entry: &ModelEntry) -> (r: Result<(), LlmError>)
        ensures
            match merge_step(old(self)@, entry@) {
                Ok(contents) => r is Ok && final(self)@ == contents,
                Err(message) => r matches Err(e) && is_configuration(e, message),
            },
    {
        proof {
            use_type_invariant(&*self);
        }
        match key_position(&self.entries, &entry.key) {
            Ok(i) => {
                proof {
                    lemma_catalog_entry(self.entries@, i as int);
                }
                let mut previous = self.entries[i].clone();
                merge_entry(&mut previous, entry);
                previous.validate()?;
                self.replace_entry(i, previous);
                Ok(())
            },
            Err(p) => {
                proof {
                    lemma_catalog_absent(self.entries@, p as int, entry.key@);
                }
                self.insert(entry.clone())
            },
        }
    }

    /// Merges ordered catalogs. Later layers replace only explicitly known capability/limit facts.
    pub fn merge(layers: &[&ModelCatalog]) -> (r: Result<Self, LlmError>)
        ensures
            catalog_outcome(merge_layers(Map::empty(), layer_views(layers@)), r),
    {
        let ghost all = layer_views(layers@);
        let mut result = ModelCatalog::default();
        let mut j: usize = 0;
        proof {
            assert(all.skip(0) =~= all);
        }
        while j < layers.len()
            invariant
                all == layer_views(layers@),
                j <= layers@.len(),
                merge_layers(Map::empty(), all) == merge_layers(result@, all.skip(j as int)),
            decreases layers.len() - j,
        {
            let layer: &ModelCatalog = layers[j];
            let ghost views = entry_views(layer.entries@);
            proof {
                assert(all.skip(j as int)[0] == views);
                assert(all.skip(j as int).drop_first() =~= all.skip(j + 1));
                assert(views.skip(0) =~= views);
            }
            let mut i: usize = 0;
            while i < layer.entries.len()
                invariant
                    all == layer_views(layers@),
                    views == entry_views(layer.entries@),
                    i <= layer.entries@.len(),
                    merge_layers(Map::empty(), all) == match merge_all(
                        result@,
                        views.skip(i as int),
                    ) {
                        Err(message) => Err(message),
                        Ok(next) => merge_layers(next, all.skip(j + 1)),
                    },
                decreases layer.entries.len() - i,
            {
                let entry = &layer.entries[i];
                proof {
                    assert(views.skip(i as int)[0] == entry@);
                    assert(views.skip(i as int).drop_first() =~= views.skip(i + 1));
                }
                let ghost acc = result@;
                match result.merge_one(entry) {
                    Ok(()) => {},
                    Err(e) => {
                        proof {
                            assert(merge_step(acc, views.skip(i as int)[0]) is Err);
                            assert(merge_all(acc, views.skip(i as int)) == merge_step(
                                acc,
                                entry@,
                            ));
                        }
                        return Err(e);
                    },
                }
                i = i + 1;
            }
            j = j + 1;
        }
        Ok(result)
    }
}

/// The keys of a sequence of entries.
pub open spec fn keys_of(entries: Seq<ModelEntryView>) -> Set<ModelKeyView> {
    Set::new(|k: ModelKeyView| exists|i: int| 0 <= i < entries.len() && entries[i].key == k)
}

/// The keys of every layer.
pub open spec fn layer_keys(layers: Seq<Seq<ModelEntryView>>) -> Set<ModelKeyView> {
    Set::new(
        |k: ModelKeyView|
            exists|j: int| 0 <= j < layers.len() && #[trigger] keys_of(layers[j]).contains(k),
    )
}

/// Reading back a successful insert yields the entry with its seed labels, leaves every
/// other key as it was, and a valid entry whose key is taken is refused as a duplicate.
pub proof fn lemma_insert_then_get(acc: Map<ModelKeyView, ModelEntryView>, e: ModelEntryView)
    ensures
        insert_step(acc, e) matches Ok(m) ==> m.contains_key(e.key) && m[e.key] == seeded_entry(e)
            && forall|k: ModelKeyView|
            k != e.key ==> (#[trigger] m.contains_key(k) == acc.contains_key(k)) && (
            m.contains_key(k) ==> m[k] == acc[k]),
        entry_rejection(e) is None && acc.contains_key(e.key) ==> insert_step(acc, e) == Err::<
            Map<ModelKeyView, ModelEntryView>,
            Seq<char>,
        >("duplicate exact catalog key"@),
{
}

/// A merge holds exactly the keys it started with and those of the merged entries.
pub proof fn lemma_merge_all_keys(acc: Map<ModelKeyView, ModelEntryView>, entries: Seq<ModelEntryView>)
    ensures
        merge_all(acc, entries) matches Ok(m) ==> m.dom() == acc.dom().union(keys_of(entries)),
    decreases entries.len(),
{
    if entries.len() > 0 {
        if let Ok(next) = merge_step(acc, entries[0]) {
            assert(next.dom() =~= acc.dom().insert(entries[0].key));
            lemma_merge_all_keys(next, entries.drop_first());
            if let Ok(m) = merge_all(acc, entries) {
                assert forall|k: ModelKeyView| keys_of(entries).contains(k) == (k == entries[0].key
                    || keys_of(entries.drop_first()).contains(k)) by {
                    if keys_of(entries).contains(k) && k != entries[0].key {
                        let i = choose|i: int| 0 <= i < entries.len() && entries[i].key == k;
                        assert(entries.drop_first()[i - 1].key == k);
                    }
                    if keys_of(entries.drop_first()).contains(k) {
                        let i = choose|i: int|
                            0 <= i < entries.drop_first().len() && entries.drop_first()[i].key == k;
                        assert(entries[i + 1].key == k);
                    }
                    if k == entries[0].key {
                        assert(entries[0].key == k);
                    }
                }
                assert(m.dom() =~= acc.dom().union(keys_of(entries)));
            }
        }
    } else {
        if let Ok(m) = merge_all(acc, entries) {
            assert(m.dom() =~= acc.dom().union(keys_of(entries)));
        }
    }
}

/// A merge of catalog layers holds exactly the keys of its layers.
pub proof fn lemma_merge_layers_keys(
    acc: Map<ModelKeyView, ModelEntryView>,
    layers: Seq<Seq<ModelEntryView>>,
)
    ensures
        merge_layers(acc, layers) matches Ok(m) ==> m.dom() == acc.dom().union(layer_keys(layers)),
    decreases layers.len(),
{
    if layers.len() > 0 {
        lemma_merge_all_keys(acc, layers[0]);
        if let Ok(next) = merge_all(acc, layers[0]) {
            lemma_merge_layers_keys(next, layers.drop_first());
            if let Ok(m) = merge_layers(acc, layers) {
                assert forall|k: ModelKeyView| layer_keys(layers).contains(k) == (keys_of(
                    layers[0],
                ).contains(k) || layer_keys(layers.drop_first()).contains(k)) by {
                    if layer_keys(layers).contains(k) && !keys_of(layers[0]).contains(k) {
                        let j = choose|j: int|
                            0 <= j < layers.len() && #[trigger] keys_of(layers[j]).contains(k);
                        assert(layers.drop_first()[j - 1] == layers[j]);
                    }
                    if layer_keys(layers.drop_first()).contains(k) {
                        let j = choose|j: int|
                            0 <= j < layers.drop_first().len() && #[trigger] keys_of(
                                layers.drop_first()[j],
                            ).contains(k);
                        assert(layers[j + 1] == layers.drop_first()[j]);
                    }
                }
                assert(m.dom() =~= acc.dom().union(layer_keys(layers)));
            }
        }
    } else {
        if let Ok(m) = merge_layers(acc, layers) {
            assert(m.dom() =~= acc.dom().union(layer_keys(layers)));
        }
    }
}

/// Laying an overlay over a base keeps every optional fact the overlay leaves out and
/// takes every one it states: pricing, deployment, default output tokens, display name and
/// each limit. An overlay that states no pricing never erases the base pricing.
pub proof fn lemma_overlay_keeps_unstated_values(base: ModelEntryView, overlay: ModelEntryView)
    ensures
        ({
            let m = merged_entry(base, overlay);
            &&& overlay.pricing is None ==> m.pricing == base.pricing
            &&& overlay.pricing is Some ==> m.pricing == overlay.pricing
            &&& overlay.deployment_id is None ==> m.deployment_id == base.deployment_id
            &&& overlay.deployment_id is Some ==> m.deployment_id == overlay.deployment_id
            &&& overlay.default_max_output_tokens is None ==> m.default_max_output_tokens
                == base.default_max_output_tokens
            &&& overlay.default_max_output_tokens is Some ==> m.default_max_output_tokens
                == overlay.default_max_output_tokens
            &&& overlay.display_name.len() == 0 ==> m.display_name == base.display_name
            &&& overlay.display_name.len() > 0 ==> m.display_name == overlay.display_name
            &&& overlay.limits.context_window_tokens is None ==> m.limits.context_window_tokens
                == base.limits.context_window_tokens
            &&& overlay.limits.context_window_tokens is Some ==> m.limits.context_window_tokens
                == overlay.limits.context_window_tokens
            &&& overlay.limits.max_messages is None ==> m.limits.max_messages == base.limits.max_messages
            &&& overlay.limits.max_messages is Some ==> m.limits.max_messages == overlay.limits.max_messages
            &&& overlay.limits.max_tools is None ==> m.limits.max_tools == base.limits.max_tools
            &&& overlay.limits.max_tools is Some ==> m.limits.max_tools == overlay.limits.max_tools
            &&& overlay.limits.max_images is None ==> m.limits.max_images == base.limits.max_images
            &&& overlay.limits.max_images is Some ==> m.limits.max_images == overlay.limits.max_images
            &&& overlay.limits.max_schema_bytes is None ==> m.limits.max_schema_bytes
                == base.limits.max_schema_bytes
            &&& overlay.limits.max_schema_bytes is Some ==> m.limits.max_schema_bytes
                == overlay.limits.max_schema_bytes
            &&& m.provider_model_id == overlay.provider_model_id
            &&& m.wire_model_value == overlay.wire_model_value
            &&& m.protocol_id == overlay.protocol_id
        }),
{
}

/// Each capability status after an overlay: an unknown overlay status keeps the base
/// status, a known one replaces it.
pub proof fn lemma_overlay_capability_statuses(base: CatalogCapabilities, overlay: CatalogCapabilities)
    ensures
        ({
            let m = merged_capabilities(base, overlay);
            let keeps = |b: CapabilityStatus, o: CapabilityStatus, r: CapabilityStatus|
                (o == CapabilityStatus::Unknown ==> r == b) && (o != CapabilityStatus::Unknown ==> r == o);
            &&& keeps(base.function_tools, overlay.function_tools, m.function_tools)
            &&& keeps(base.tool_choice_required, overlay.tool_choice_required, m.tool_choice_required)
            &&& keeps(base.tool_choice_specific, overlay.tool_choice_specific, m.tool_choice_specific)
            &&& keeps(base.parallel_tool_calls, overlay.parallel_tool_calls, m.parallel_tool_calls)
            &&& keeps(base.strict_tools, overlay.strict_tools, m.strict_tools)
            &&& keeps(base.vision_input, overlay.vision_input, m.vision_input)
            &&& keeps(base.image_detail_original, overlay.image_detail_original, m.image_detail_original)
            &&& keeps(
                base.response_format_json_object,
                overlay.response_format_json_object,
                m.response_format_json_object,
            )
            &&& keeps(
                base.response_format_json_schema,
                overlay.response_format_json_schema,
                m.response_format_json_schema,
            )
            &&& keeps(base.adaptive_thinking, overlay.adaptive_thinking, m.adaptive_thinking)
            &&& keeps(
                base.adaptive_thinking_effort,
                overlay.adaptive_thinking_effort,
                m.adaptive_thinking_effort,
            )
            &&& overlay.reasoning_efforts == ReasoningEffortSupport::Unknown ==> m.reasoning_efforts
                == base.reasoning_efforts
            &&& overlay.reasoning_efforts != ReasoningEffortSupport::Unknown ==> m.reasoning_efforts
                == overlay.reasoning_efforts
        }),
{
}

/// Merging an entry into a catalog that already holds its key keeps the stored entry's
/// pricing unless the merged entry states one.
pub proof fn lemma_merge_keeps_unstated_pricing(acc: Map<ModelKeyView, ModelEntryView>, e: ModelEntryView)
    requires
        acc.contains_key(e.key),
    ensures
        merge_step(acc, e) matches Ok(m) ==> m.contains_key(e.key) && (e.pricing is None
            ==> m[e.key].pricing == acc[e.key].pricing) && (e.pricing is Some ==> m[e.key].pricing
            == e.pricing),
{
}

/// Laying an overlay over a base keeps every capability and limit the overlay leaves
/// unknown, takes every one it states, and labels exactly the overlaid fields.
pub proof fn lemma_overlay_replaces_only_known_facts(base: ModelEntryView, overlay: ModelEntryView)
    ensures
        ({
            let m = merged_entry(base, overlay);
            &&& overlay.capabilities.function_tools == CapabilityStatus::Unknown
                ==> m.capabilities.function_tools == base.capabilities.function_tools
            &&& overlay.capabilities.function_tools != CapabilityStatus::Unknown
                ==> m.capabilities.function_tools == overlay.capabilities.function_tools
            &&& overlay.capabilities.reasoning_efforts == ReasoningEffortSupport::Unknown
                ==> m.capabilities.reasoning_efforts == base.capabilities.reasoning_efforts
            &&& overlay.limits.max_output_tokens is None ==> m.limits.max_output_tokens
                == base.limits.max_output_tokens
            &&& overlay.limits.max_output_tokens is Some ==> m.limits.max_output_tokens
                == overlay.limits.max_output_tokens
            &&& overlay.support_status == CapabilityStatus::Unknown ==> m.support_status
                == base.support_status
            &&& m.key == base.key
            &&& m.source == overlay.source
            &&& forall|f: Seq<char>|
                !overlay_fields(overlay).contains(f) ==> (#[trigger] m.provenance.contains_key(f)
                    == base.provenance.contains_key(f)) && (m.provenance.contains_key(f)
                    ==> m.provenance[f] == base.provenance[f])
        }),
{
}

} // verus!
