use philo::error::{LlmError, ValidationReason};
use philo::provider::profiles::OpenRouterAttribution;

fn field_of(err: LlmError) -> String {
    match err {
        LlmError::Validation(v) => {
            assert_eq!(v.reason(), ValidationReason::InvalidIdentifier);
            assert_eq!(v.summary(), "OpenRouter attribution value is outside the safe structured subset");
            v.field().to_owned()
        }
        other => panic!("unexpected {other:?}"),
    }
}

#[test]
fn attribution_accepts_an_https_origin_and_a_short_title() {
    let a = OpenRouterAttribution::new("https://example.com", "My App").unwrap();
    let ops = a.operations();
    assert_eq!(ops.len(), 2);
    assert_eq!(ops[0].name(), "http-referer");
    assert_eq!(ops[1].name(), "x-openrouter-title");
    assert!(OpenRouterAttribution::new("https://example.com/", "t").is_ok());
}

#[test]
fn attribution_rejects_anything_but_a_bare_https_origin() {
    for site in [
        "http://example.com",
        "https://example.com/path",
        "https://example.com/?q=1",
        "https://example.com/#frag",
        "https://user@example.com",
        "https://user:pw@example.com",
        "not a url",
    ] {
        assert_eq!(
            field_of(OpenRouterAttribution::new(site, "ok").err().unwrap()),
            "openrouter_attribution.site",
            "{site}"
        );
    }
}

#[test]
fn attribution_titles_are_short_ascii() {
    for title in ["", "caf\u{e9}", &"t".repeat(129)] {
        assert_eq!(
            field_of(OpenRouterAttribution::new("https://example.com", title).err().unwrap()),
            "openrouter_attribution.title"
        );
    }
    assert!(OpenRouterAttribution::new("https://example.com", &"t".repeat(128)).is_ok());
    assert_eq!(
        field_of(OpenRouterAttribution::new("https://example.com", "a\u{7f}b").err().unwrap()),
        "openrouter_attribution.title"
    );
}

#[test]
fn categories_are_joined_with_commas_and_bounded() {
    let a = OpenRouterAttribution::new("https://example.com", "App")
        .unwrap()
        .with_categories(&["coding", "chat_bot", "x-1"])
        .unwrap();
    let ops = a.operations();
    assert_eq!(ops.len(), 3);
    assert_eq!(ops[2].name(), "x-openrouter-categories");
    let base = OpenRouterAttribution::new("https://example.com", "App").unwrap();
    for bad in [
        vec![],
        vec!["a"; 9],
        vec![""],
        vec!["has space"],
        vec!["comma,separated"],
    ] {
        assert_eq!(
            field_of(base.clone().with_categories(&bad).err().unwrap()),
            "openrouter_attribution.categories"
        );
    }
    let long = "c".repeat(33);
    assert!(base.clone().with_categories(&[long.as_str()]).is_err());
    assert!(base.with_categories(&["a"; 8]).is_ok());
}
