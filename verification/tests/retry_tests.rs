use wasmbl::retry::{
    decide, decide_with, is_transient, sample_backoff, RetryDecision, BACKOFF_LIMIT_MS,
    BACKOFF_MIN_MS, DEFAULT_RETRIES,
};

#[test]
fn retry_budget_and_pause_range() {
    assert_eq!(DEFAULT_RETRIES, 3);
    assert_eq!(BACKOFF_MIN_MS, 1000);
    assert_eq!(BACKOFF_LIMIT_MS, 5000);
}

#[test]
fn transient_signatures() {
    assert!(is_transient("Error: Directory not empty"));
    assert!(is_transient("x: Error: Directory not empty (os error 39)"));
    assert!(is_transient("wasm-opt binary does not exist"));
    assert!(!is_transient("Directory not empty"));
    assert!(!is_transient("error: directory not empty"));
    assert!(!is_transient("binary does not exit"));
    assert!(!is_transient(""));
}

#[test]
fn sampled_pauses_lie_in_the_range() {
    let mut seen = std::collections::BTreeSet::new();
    for _ in 0..200 {
        let pause = sample_backoff();
        assert!(pause >= 1000);
        assert!(pause < 5000);
        seen.insert(pause);
    }
    assert!(seen.len() > 1);
}

#[test]
fn decision_retries_transient_failures_while_budget_lasts() {
    assert_eq!(
        decide_with("Error: Directory not empty", 3, 1500),
        RetryDecision::RetryAfter(1500)
    );
    assert_eq!(
        decide_with("binary does not exist", 1, 4999),
        RetryDecision::RetryAfter(4999)
    );
    assert_eq!(decide_with("Error: Directory not empty", 0, 1500), RetryDecision::GiveUp);
    assert_eq!(decide_with("something else", 3, 1500), RetryDecision::GiveUp);
}

#[test]
fn decision_draws_the_pause_from_the_range() {
    for _ in 0..50 {
        match decide("binary does not exist", 2) {
            RetryDecision::RetryAfter(pause) => assert!((1000..5000).contains(&pause)),
            RetryDecision::GiveUp => panic!("a transient failure with budget is retried"),
        }
    }
    assert_eq!(decide("binary does not exist", 0), RetryDecision::GiveUp);
    assert_eq!(decide("permanent", 3), RetryDecision::GiveUp);
}
