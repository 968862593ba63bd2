use user_store::bootstrap::BootstrapStep;
use user_store::bootstrap::MAX_CONNECT_ATTEMPTS;
use user_store::bootstrap::RETRY_DELAY_SECS;
use user_store::bootstrap::bootstrap_outcome;
use user_store::bootstrap::connection_string_or_default;
use user_store::bootstrap::document_store_name;
use user_store::bootstrap::document_store_uri;
use user_store::bootstrap::next_bootstrap_step;
use user_store::errors::AppError;

#[test]
fn retry_budget_constants() {
    assert_eq!(MAX_CONNECT_ATTEMPTS, 5);
    assert_eq!(RETRY_DELAY_SECS, 5);
}

#[test]
fn step_decision_per_attempt() {
    assert!(matches!(next_bootstrap_step(1, true), BootstrapStep::Connected));
    assert!(matches!(next_bootstrap_step(5, true), BootstrapStep::Connected));
    assert!(matches!(next_bootstrap_step(1, false), BootstrapStep::RetryAfterDelay));
    assert!(matches!(next_bootstrap_step(4, false), BootstrapStep::RetryAfterDelay));
    assert!(matches!(next_bootstrap_step(5, false), BootstrapStep::GiveUp));
}

#[test]
fn four_failures_then_success_connects_after_four_waits() {
    let outcomes = vec![false, false, false, false, true];
    let report = bootstrap_outcome(&outcomes);
    assert!(report.connected);
    assert_eq!(report.attempts, 5);
    assert_eq!(report.waits, 4);
    assert!(report.waits * RETRY_DELAY_SECS >= 4 * RETRY_DELAY_SECS);
    assert!(report.liveness_spawned);
}

#[test]
fn five_failures_give_up_without_liveness_task() {
    let outcomes = vec![false, false, false, false, false];
    let report = bootstrap_outcome(&outcomes);
    assert!(!report.connected);
    assert_eq!(report.attempts, 5);
    assert!(!report.liveness_spawned);
}

#[test]
fn immediate_success_needs_no_wait() {
    let outcomes = vec![true, false, false, false, false];
    let report = bootstrap_outcome(&outcomes);
    assert!(report.connected);
    assert_eq!(report.attempts, 1);
    assert_eq!(report.waits, 0);
}

#[test]
fn success_on_third_attempt() {
    let outcomes = vec![false, false, true, false, false];
    let report = bootstrap_outcome(&outcomes);
    assert!(report.connected);
    assert_eq!(report.attempts, 3);
    assert_eq!(report.waits, 2);
}

#[test]
fn connection_string_fallback() {
    let s = connection_string_or_default(Some("host=db user=svc".to_string()));
    assert_eq!(s, "host=db user=svc");
    let d = connection_string_or_default(None);
    assert_eq!(d, "host=localhost user=postgres");
}

#[test]
fn missing_document_store_uri_is_fatal() {
    let ok = document_store_uri(Some("mongodb://localhost:27017".to_string()));
    assert_eq!(ok.unwrap(), "mongodb://localhost:27017");
    let missing = document_store_uri(None).unwrap_err();
    assert!(matches!(missing, AppError::DatabaseError(_)));
    assert_eq!(missing.message(), "MongoDB URI not set");
}

#[test]
fn missing_document_store_name_is_fatal() {
    let ok = document_store_name(Some("mydatabase".to_string()));
    assert_eq!(ok.unwrap(), "mydatabase");
    let missing = document_store_name(None).unwrap_err();
    assert!(matches!(missing, AppError::DatabaseError(_)));
    assert_eq!(missing.message(), "MongoDB database name not set");
}
