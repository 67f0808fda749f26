use kv_downloader::retry::{
    after_failure, dialog_timeout_secs, retry_delay_secs, RetryDecision, MAX_ATTEMPTS,
};

#[test]
fn three_attempts_at_most() {
    assert_eq!(MAX_ATTEMPTS, 3);
}

#[test]
fn delay_grows_by_five_seconds_per_attempt() {
    assert_eq!(retry_delay_secs(1), 5);
    assert_eq!(retry_delay_secs(2), 10);
    assert_eq!(retry_delay_secs(3), 15);
    assert_eq!(retry_delay_secs(0), 0);
    assert_eq!(retry_delay_secs(u32::MAX), 5 * (u32::MAX as u64));
}

#[test]
fn dialog_timeout_grows_by_thirty_seconds_per_attempt() {
    assert_eq!(dialog_timeout_secs(1), 60);
    assert_eq!(dialog_timeout_secs(2), 90);
    assert_eq!(dialog_timeout_secs(3), 120);
    assert_eq!(dialog_timeout_secs(u32::MAX), 60 + 30 * (u32::MAX as u64 - 1));
}

#[test]
fn failures_are_retried_until_the_third() {
    assert_eq!(after_failure(1), RetryDecision::RetryAfter { delay_secs: 5, next_attempt: 2 });
    assert_eq!(after_failure(2), RetryDecision::RetryAfter { delay_secs: 10, next_attempt: 3 });
    assert_eq!(after_failure(3), RetryDecision::GiveUp);
    assert_eq!(after_failure(4), RetryDecision::GiveUp);
    assert_eq!(after_failure(u32::MAX), RetryDecision::GiveUp);
}
