use resilience_core::backoff::calculate_backoff_delay;
use resilience_core::policy::RetryConfig;

#[test]
fn test_default_retry_config() {
    let config = RetryConfig::default();

    assert_eq!(config.max_attempts, 3);
    assert_eq!(config.initial_delay_ms, 100);
    assert_eq!(config.max_delay_ms, 5000);
    assert_eq!(config.backoff_multiplier, 2);
    assert_eq!(config.jitter_percent, 20);
}

#[test]
fn test_aggressive_retry_config() {
    let config = RetryConfig::aggressive();

    assert_eq!(config.max_attempts, 5);
    assert_eq!(config.initial_delay_ms, 50);
}

#[test]
fn test_conservative_retry_config() {
    let config = RetryConfig::conservative();

    assert_eq!(config.max_attempts, 2);
    assert_eq!(config.initial_delay_ms, 200);
}

#[test]
fn test_exponential_backoff_progression() {
    let now: u64 = 1000;

    let config = RetryConfig {
        max_attempts: 5,
        initial_delay_ms: 100,
        max_delay_ms: 10000,
        backoff_multiplier: 2,
        jitter_percent: 0, // No jitter for predictable testing
    };

    // Attempt 0: 100ms * 2^0 = 100ms
    let delay0 = calculate_backoff_delay(&config, 0, now);
    assert!(delay0 >= 80 && delay0 <= 120); // Allow for some variance

    // Attempt 1: 100ms * 2^1 = 200ms
    let delay1 = calculate_backoff_delay(&config, 1, now);
    assert!(delay1 >= 180 && delay1 <= 220);

    // Attempt 2: 100ms * 2^2 = 400ms
    let delay2 = calculate_backoff_delay(&config, 2, now);
    assert!(delay2 >= 380 && delay2 <= 420);

    // Attempt 3: 100ms * 2^3 = 800ms
    let delay3 = calculate_backoff_delay(&config, 3, now);
    assert!(delay3 >= 780 && delay3 <= 820);
}

#[test]
fn test_backoff_max_delay_cap() {
    let now: u64 = 1000;

    let config = RetryConfig {
        max_attempts: 10,
        initial_delay_ms: 100,
        max_delay_ms: 1000, // Cap at 1 second
        backoff_multiplier: 2,
        jitter_percent: 0,
    };

    // Attempt 10 would be 100ms * 2^10 = 102,400ms, but should cap at 1000ms
    let delay = calculate_backoff_delay(&config, 10, now);
    assert!(delay <= 1000);
}

#[test]
fn test_backoff_with_jitter() {
    let now: u64 = 1000;

    let config = RetryConfig {
        max_attempts: 3,
        initial_delay_ms: 1000,
        max_delay_ms: 10000,
        backoff_multiplier: 2,
        jitter_percent: 20, // 20% jitter
    };

    // With 20% jitter, delay should be between 800ms and 1200ms for attempt 0
    let delay = calculate_backoff_delay(&config, 0, now);
    assert!(delay >= 800 && delay <= 1200);
}

#[test]
fn test_backoff_jitter_is_deterministic() {
    let config = RetryConfig::default();

    // Same policy, attempt index and time must reproduce the same delay.
    let a = calculate_backoff_delay(&config, 1, 12345);
    let b = calculate_backoff_delay(&config, 1, 12345);
    assert_eq!(a, b);
}

#[test]
fn test_backoff_monotonic_without_jitter() {
    let config = RetryConfig {
        max_attempts: 10,
        initial_delay_ms: 7,
        max_delay_ms: 300,
        backoff_multiplier: 3,
        jitter_percent: 0,
    };

    let mut previous: u64 = 0;
    for attempt in 0..12 {
        let delay = calculate_backoff_delay(&config, attempt, 999);
        assert!(delay >= previous);
        assert!(delay <= config.max_delay_ms);
        previous = delay;
    }
}
