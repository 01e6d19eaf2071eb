use philo::error::{HeaderPolicyFailure, LlmError};
use philo::provider::headers::dynamic::DynamicHeaderPolicy;
use philo::provider::headers::pipeline::HeaderOperation;

fn failure(err: LlmError) -> HeaderPolicyFailure {
    match err {
        LlmError::HeaderPolicy(e) => e.failure(),
        other => panic!("unexpected {other:?}"),
    }
}

fn policy() -> DynamicHeaderPolicy {
    DynamicHeaderPolicy::new(vec!["x-tenant".to_owned(), "x-trace".to_owned()]).unwrap()
}

fn set(name: &str, value: &str) -> HeaderOperation {
    HeaderOperation::set(name, value.as_bytes()).unwrap()
}

#[test]
fn allowlists_hold_one_to_thirty_two_unprotected_names() {
    assert_eq!(failure(DynamicHeaderPolicy::new(vec![]).err().unwrap()), HeaderPolicyFailure::InvalidOperation);
    let many: Vec<String> = (0..33).map(|i| format!("x-h{i}")).collect();
    assert_eq!(failure(DynamicHeaderPolicy::new(many).err().unwrap()), HeaderPolicyFailure::InvalidOperation);
    assert_eq!(
        failure(DynamicHeaderPolicy::new(vec!["authorization".to_owned()]).err().unwrap()),
        HeaderPolicyFailure::InvalidOperation
    );
    let p = policy();
    assert_eq!(p.allowed_headers().len(), 2);
    assert_eq!(p.timeout_nanos(), 1_000_000_000);
    assert_eq!(p.max_operations(), 16);
    assert_eq!(p.max_bytes(), 4096);
}

#[test]
fn timeouts_and_budgets_are_bounded() {
    assert_eq!(failure(policy().with_timeout(0).err().unwrap()), HeaderPolicyFailure::Timeout);
    assert_eq!(policy().with_timeout(5).unwrap().timeout_nanos(), 5);
    for (ops, bytes) in [(0, 10), (65, 10), (1, 0), (1, 64 * 1024 + 1)] {
        assert_eq!(
            failure(policy().with_budget(ops, bytes).err().unwrap()),
            HeaderPolicyFailure::BudgetExceeded
        );
    }
    let p = policy().with_budget(64, 64 * 1024).unwrap();
    assert_eq!((p.max_operations(), p.max_bytes()), (64, 64 * 1024));
}

#[test]
fn callback_operations_stay_inside_the_allowlist_and_budget() {
    let p = policy();
    let ok = p.check_operations(vec![set("x-tenant", "a"), HeaderOperation::remove("x-trace")]).unwrap();
    assert_eq!(ok.len(), 2);
    assert_eq!(
        failure(p.check_operations(vec![set("x-other", "a")]).err().unwrap()),
        HeaderPolicyFailure::InvalidOperation
    );
    assert_eq!(
        failure(p.check_operations(vec![HeaderOperation::set_sensitive("x-tenant", b"a").unwrap()]).err().unwrap()),
        HeaderPolicyFailure::InvalidOperation
    );
    let small = policy().with_budget(1, 9).unwrap();
    assert_eq!(
        failure(small.check_operations(vec![set("x-tenant", "a"), set("x-trace", "b")]).err().unwrap()),
        HeaderPolicyFailure::BudgetExceeded
    );
    assert!(small.check_operations(vec![set("x-tenant", "a")]).is_ok());
    assert_eq!(
        failure(small.check_operations(vec![set("x-tenant", "ab")]).err().unwrap()),
        HeaderPolicyFailure::BudgetExceeded
    );
    assert!(small.check_operations(vec![]).is_ok());
}
