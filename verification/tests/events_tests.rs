use resilience_core::events::{FeeOperationType, LogLevel};

#[test]
fn test_log_level_codes() {
    assert_eq!(LogLevel::Debug.code(), 0);
    assert_eq!(LogLevel::Info.code(), 1);
    assert_eq!(LogLevel::Warn.code(), 2);
    assert_eq!(LogLevel::Error.code(), 3);
}

#[test]
fn test_log_level_severity_filter() {
    // A "warnings and above" filter passes Warn and Error only.
    assert!(!LogLevel::Debug.at_least(LogLevel::Warn));
    assert!(!LogLevel::Info.at_least(LogLevel::Warn));
    assert!(LogLevel::Warn.at_least(LogLevel::Warn));
    assert!(LogLevel::Error.at_least(LogLevel::Warn));
}

#[test]
fn test_fee_operation_types_are_distinct() {
    assert_ne!(FeeOperationType::Lock, FeeOperationType::Release);
}
