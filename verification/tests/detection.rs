use philo::provider::detection::suffix_match;

#[test]
fn suffix_matching_requires_dns_label_boundary() {
    assert!(suffix_match("api.example.com", "example.com"));
    assert!(suffix_match("example.com", "example.com"));
    assert!(!suffix_match("evil-example.com", "example.com"));
    assert!(!suffix_match("notexample.com", "example.com"));
}
