use sz_sdk_rust_grpc::szerrortypes::{
    next_retry_step, retry_backoff, retry_decision, retry_pause, sz_error_from_code, RetryDecision,
};
use sz_sdk_rust_grpc::{is_retryable, Duration, SzError, SzErrorKind};

#[test]
fn test_bad_input_code() {
    let err = sz_error_from_code(23, "test".to_string());
    assert!(matches!(err, SzError::BadInput { .. }));
}

#[test]
fn test_not_found_code() {
    let err = sz_error_from_code(33, "test".to_string());
    assert!(matches!(err, SzError::NotFound { .. }));
}

#[test]
fn test_database_code() {
    let err = sz_error_from_code(1000, "test".to_string());
    assert!(matches!(err, SzError::Database { .. }));
}

#[test]
fn test_database_connection_lost_code() {
    let err = sz_error_from_code(1006, "test".to_string());
    assert!(matches!(err, SzError::DatabaseConnectionLost { .. }));
}

#[test]
fn test_database_transient_code() {
    let err = sz_error_from_code(1008, "test".to_string());
    assert!(matches!(err, SzError::DatabaseTransient { .. }));
}

#[test]
fn test_not_initialized_code() {
    let err = sz_error_from_code(48, "test".to_string());
    assert!(matches!(err, SzError::NotInitialized { .. }));
}

#[test]
fn test_license_code() {
    let err = sz_error_from_code(999, "test".to_string());
    assert!(matches!(err, SzError::License { .. }));
}

#[test]
fn test_unhandled_code() {
    let err = sz_error_from_code(87, "test".to_string());
    assert!(matches!(err, SzError::Unhandled { .. }));
}

#[test]
fn test_replace_conflict_code() {
    let err = sz_error_from_code(7245, "test".to_string());
    assert!(matches!(err, SzError::ReplaceConflict { .. }));
}

#[test]
fn test_unknown_data_source_code() {
    let err = sz_error_from_code(2207, "test".to_string());
    assert!(matches!(err, SzError::UnknownDataSource { .. }));
}

#[test]
fn test_configuration_code() {
    let err = sz_error_from_code(14, "test".to_string());
    assert!(matches!(err, SzError::Configuration { .. }));
}

#[test]
fn test_retry_timeout_exceeded_code() {
    let err = sz_error_from_code(10, "test".to_string());
    assert!(matches!(err, SzError::RetryTimeoutExceeded { .. }));
}

#[test]
fn test_unknown_code_falls_back_to_general() {
    let err = sz_error_from_code(99999, "test".to_string());
    assert!(matches!(err, SzError::General { .. }));
}

#[test]
fn test_error_from_code_keeps_code_and_message() {
    let err = sz_error_from_code(2207, "no such source".to_string());
    assert_eq!(err.code(), 2207);
    assert_eq!(err.message().as_str(), "no such source");
    assert_eq!(err.display(), "no such source");
}

#[test]
fn test_is_retryable_database_transient() {
    let err = SzError::DatabaseTransient {
        code: 1008,
        message: "deadlock".to_string(),
    };
    assert!(is_retryable(&err));
}

#[test]
fn test_is_retryable_database_connection_lost() {
    let err = SzError::DatabaseConnectionLost {
        code: 1006,
        message: "lost".to_string(),
    };
    assert!(is_retryable(&err));
}

#[test]
fn test_is_retryable_retry_timeout() {
    let err = SzError::RetryTimeoutExceeded {
        code: 10,
        message: "timeout".to_string(),
    };
    assert!(is_retryable(&err));
}

#[test]
fn test_is_not_retryable_bad_input() {
    let err = SzError::BadInput {
        code: 23,
        message: "bad".to_string(),
    };
    assert!(!is_retryable(&err));
}

#[test]
fn test_is_not_retryable_not_found() {
    let err = SzError::NotFound {
        code: 33,
        message: "missing".to_string(),
    };
    assert!(!is_retryable(&err));
}

#[test]
fn test_is_not_retryable_general() {
    let err = SzError::General {
        code: 0,
        message: "general".to_string(),
    };
    assert!(!is_retryable(&err));
}

#[test]
fn test_retryable_codes_are_exactly_the_transient_ones() {
    for code in [10, 1006, 1007, 1008] {
        assert!(is_retryable(&sz_error_from_code(code, String::new())), "{code}");
    }
    for code in [0, 2, 7, 23, 33, 48, 999, 1000, 1001, 1005, 1009, 2207, 7245] {
        assert!(!is_retryable(&sz_error_from_code(code, String::new())), "{code}");
    }
}

#[test]
fn test_constructors_have_code_zero() {
    let err = SzError::bad_input("bad").with_code(23);
    assert_eq!(err.kind(), SzErrorKind::BadInput);
    assert_eq!(err.code(), 23);
    assert_eq!(SzError::not_found("x").kind(), SzErrorKind::NotFound);
    assert_eq!(SzError::general("x").code(), 0);
}

#[test]
fn test_retry_backoff_doubles_and_caps() {
    let base = Duration::from_millis(100);
    assert_eq!(retry_backoff(base, 0), Duration::from_millis(100));
    assert_eq!(retry_backoff(base, 1), Duration::from_millis(200));
    assert_eq!(retry_backoff(base, 3), Duration::from_millis(800));
    // capped at 30 seconds
    assert_eq!(retry_backoff(base, 9), Duration::from_secs(30));
    // at most ten doublings
    assert_eq!(retry_backoff(Duration::from_millis(1), 20), Duration::from_millis(1024));
}

#[test]
fn test_retry_pause_adds_jitter_below_a_quarter() {
    let base = Duration::from_millis(400);
    // quarter of 400 ms is 100 ms: jitter is entropy % 100 ms
    assert_eq!(retry_pause(base, 0, 250), Duration::from_millis(450));
    assert_eq!(retry_pause(base, 0, 99), Duration::from_millis(499));
    // a backoff under 4 ms has a jitter span of 1 ms, so no jitter
    assert_eq!(retry_pause(Duration::from_millis(1), 0, 12345), Duration::from_millis(1));
}

#[test]
fn test_retry_decision() {
    let transient = SzError::database_transient("deadlock").with_code(1008);
    let permanent = SzError::bad_input("bad").with_code(23);
    let base = Duration::from_millis(1);
    assert_eq!(
        retry_decision(&transient, 0, 3, base, 0),
        RetryDecision::Retry(Duration::from_millis(1))
    );
    assert_eq!(retry_decision(&transient, 2, 3, base, 0), RetryDecision::GiveUp);
    assert_eq!(retry_decision(&permanent, 0, 3, base, 0), RetryDecision::GiveUp);
    assert_eq!(retry_decision(&transient, 0, 1, base, 0), RetryDecision::GiveUp);
    assert_eq!(retry_decision(&transient, 0, 0, base, 0), RetryDecision::GiveUp);
}

#[test]
fn test_next_retry_step_pause_in_range() {
    let transient = SzError::database_transient("deadlock");
    match next_retry_step(&transient, 0, 5, Duration::from_millis(400)) {
        RetryDecision::Retry(pause) => {
            assert!(pause.as_millis() >= 400 && pause.as_millis() < 500);
        }
        RetryDecision::GiveUp => panic!("a transient error is retried"),
    }
    assert_eq!(
        next_retry_step(&SzError::general("x"), 0, 5, Duration::from_millis(400)),
        RetryDecision::GiveUp
    );
}

#[test]
fn test_retry_run_stops_at_limit_and_on_permanent_error() {
    // A run whose attempts keep failing transiently makes max_attempts attempts.
    let transient = SzError::database_transient("deadlock");
    let base = Duration::from_millis(1);
    let mut attempts = 0;
    for attempt in 0..10u32 {
        attempts += 1;
        if retry_decision(&transient, attempt, 4, base, 0) == RetryDecision::GiveUp {
            break;
        }
    }
    assert_eq!(attempts, 4);
    // A permanent error ends the run after the first attempt.
    let permanent = SzError::bad_input("bad");
    assert_eq!(retry_decision(&permanent, 0, 4, base, 0), RetryDecision::GiveUp);
}
