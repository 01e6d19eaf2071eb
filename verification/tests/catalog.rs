use philo::domain::{CapabilityStatus, ModelId, ProtocolId, ProviderId};
use philo::error::LlmError;
use philo::provider::catalog::source::validate_date;
use philo::provider::catalog::{
    CatalogCapabilities, CatalogProvenance, CatalogSource, CatalogSourceId, ModelCatalog,
    ModelEntry, ModelKey, ModelLimits, ProductId, ProviderModelId, WireModelValue,
};

fn no_limits() -> ModelLimits {
    ModelLimits {
        context_window_tokens: None,
        max_output_tokens: None,
        max_messages: None,
        max_tools: None,
        max_images: None,
        max_schema_bytes: None,
    }
}

fn key(model: &str) -> ModelKey {
    ModelKey {
        provider_id: ProviderId::new("acme").unwrap(),
        product_id: ProductId::new("chat").unwrap(),
        domain_model_id: ModelId::new(model).unwrap(),
    }
}

fn source(id: &str) -> CatalogSource {
    CatalogSource::new(CatalogSourceId::new(id).unwrap(), "2026-01-01", Some("2026-06-30")).unwrap()
}

fn entry(model: &str, name: &str, src: &str) -> ModelEntry {
    ModelEntry {
        key: key(model),
        provider_model_id: ProviderModelId::new(model).unwrap(),
        deployment_id: None,
        wire_model_value: WireModelValue::new(model).unwrap(),
        display_name: name.to_owned(),
        protocol_id: ProtocolId::new("openai-chat-completions").unwrap(),
        capabilities: CatalogCapabilities::all_unknown(),
        limits: no_limits(),
        default_max_output_tokens: None,
        pricing: None,
        source: source(src),
        support_status: CapabilityStatus::Unknown,
        provenance: CatalogProvenance::new(),
    }
}

fn config_message(err: LlmError) -> String {
    match err {
        LlmError::Configuration(m) => m,
        other => panic!("unexpected {other:?}"),
    }
}

#[test]
fn exact_keys_are_unique() {
    let catalog = ModelCatalog::from_entries(vec![entry("m1", "M1", "s1"), entry("m2", "M2", "s1")]).unwrap();
    assert_eq!(catalog.entries().len(), 2);
    assert_eq!(catalog.get(&key("m2")).unwrap().display_name, "M2");
    assert!(catalog.resolve(&key("m3")).is_none());
    let err = ModelCatalog::from_entries(vec![entry("m1", "M1", "s1"), entry("m1", "again", "s1")]).err().unwrap();
    assert_eq!(config_message(err), "duplicate exact catalog key");
}

#[test]
fn inserted_entries_label_every_field_with_their_source() {
    let mut catalog = ModelCatalog::default();
    catalog.insert(entry("m1", "M1", "s1")).unwrap();
    let stored = catalog.get(&key("m1")).unwrap();
    assert_eq!(stored.field_source("display_name").unwrap().id().as_str(), "s1");
    assert_eq!(stored.field_source("support_status").unwrap().id().as_str(), "s1");
}

#[test]
fn entries_are_validated_on_insert() {
    let mut catalog = ModelCatalog::default();
    assert_eq!(config_message(catalog.insert(entry("m1", "  ", "s1")).err().unwrap()), "catalog display name must not be empty");
    let mut zero = entry("m1", "M1", "s1");
    zero.default_max_output_tokens = Some(0);
    assert_eq!(config_message(catalog.insert(zero).err().unwrap()), "catalog default output limit must be positive");
    let mut over = entry("m1", "M1", "s1");
    over.default_max_output_tokens = Some(200);
    over.limits.max_output_tokens = Some(100);
    assert_eq!(
        config_message(catalog.insert(over).err().unwrap()),
        "catalog default output tokens exceed the exact model limit"
    );
    assert!(catalog.entries().is_empty());
}

#[test]
fn later_layers_replace_only_known_facts() {
    let mut base = entry("m1", "Base name", "base");
    base.capabilities.function_tools = CapabilityStatus::Supported;
    base.capabilities.vision_input = CapabilityStatus::Supported;
    base.limits.max_output_tokens = Some(4096);
    let base = ModelCatalog::from_entries(vec![base]).unwrap();

    let mut overlay = entry("m1", "Overlay name", "overlay");
    overlay.capabilities.vision_input = CapabilityStatus::Unsupported;
    overlay.limits.context_window_tokens = Some(128_000);
    let overlay = ModelCatalog::from_entries(vec![overlay, entry("m2", "New", "overlay")]).unwrap();

    let merged = ModelCatalog::merge(&[&base, &overlay]).unwrap();
    let m1 = merged.get(&key("m1")).unwrap();
    assert_eq!(m1.capabilities.function_tools, CapabilityStatus::Supported);
    assert_eq!(m1.capabilities.vision_input, CapabilityStatus::Unsupported);
    assert_eq!(m1.limits.max_output_tokens, Some(4096));
    assert_eq!(m1.limits.context_window_tokens, Some(128_000));
    assert_eq!(m1.display_name, "Overlay name");
    assert_eq!(m1.field_source("capabilities.vision_input").unwrap().id().as_str(), "overlay");
    assert_eq!(m1.field_source("capabilities.function_tools").unwrap().id().as_str(), "base");
    assert!(merged.get(&key("m2")).is_some());
}

#[test]
fn dates_are_calendar_days_and_staleness_follows_expiry() {
    assert!(validate_date("2024-02-29").is_ok());
    assert_eq!(config_message(validate_date("2023-02-29").err().unwrap()), "catalog date is not a valid calendar day");
    assert_eq!(config_message(validate_date("2023-2-1").err().unwrap()), "catalog dates must use YYYY-MM-DD");
    assert_eq!(config_message(validate_date("2023-04-31").err().unwrap()), "catalog date is not a valid calendar day");
    let s = source("s");
    assert!(!s.is_stale_on("2026-01-01").unwrap());
    assert!(!s.is_stale_on("2026-06-30").unwrap());
    assert!(s.is_stale_on("2026-07-01").unwrap());
    assert!(s.is_stale_on("bad").is_err());
    let err = CatalogSource::new(CatalogSourceId::new("s").unwrap(), "2026-02-01", Some("2026-01-01")).err().unwrap();
    assert_eq!(config_message(err), "catalog expiry precedes review date");
}
