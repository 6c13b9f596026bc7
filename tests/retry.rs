use dyndns_rs::retry_handler::{from, RetryHandler, RetryPolicy};

#[test]
fn default_policy_waits_100_then_10000_then_gives_up() {
    let handler = RetryHandler::new(3, 100);
    assert_eq!(handler.handle(1), RetryPolicy::WaitRetry(100));
    assert_eq!(handler.handle(2), RetryPolicy::WaitRetry(10000));
    assert_eq!(handler.handle(3), RetryPolicy::ForwardError);
}

#[test]
fn resolver_failing_twice_then_succeeding_is_retried() {
    let handler = RetryHandler::new(3, 100);
    let outcomes = [None, None, Some(42u32)];
    let mut waited: Vec<u64> = Vec::new();
    let mut attempts: usize = 0;
    let mut result = None;
    loop {
        let outcome = outcomes[attempts];
        attempts += 1;
        match outcome {
            Some(v) => {
                result = Some(v);
                break;
            }
            None => match handler.handle(attempts) {
                RetryPolicy::WaitRetry(ms) => waited.push(ms),
                RetryPolicy::ForwardError => break,
            },
        }
    }
    assert_eq!(result, Some(42));
    assert_eq!(attempts, 3);
    assert_eq!(waited, vec![100, 10000]);
}

#[test]
fn resolver_failing_three_times_is_not_tried_a_fourth_time() {
    let handler = RetryHandler::new(3, 100);
    let mut waited: Vec<u64> = Vec::new();
    let mut attempts: usize = 0;
    loop {
        attempts += 1;
        match handler.handle(attempts) {
            RetryPolicy::WaitRetry(ms) => waited.push(ms),
            RetryPolicy::ForwardError => break,
        }
    }
    assert_eq!(attempts, 3);
    assert_eq!(waited, vec![100, 10000]);
}

#[test]
fn zero_base_delay_and_single_attempt() {
    let handler = RetryHandler::new(1, 0);
    assert_eq!(handler.handle(1), RetryPolicy::ForwardError);
    let handler = RetryHandler::new(5, 0);
    assert_eq!(handler.handle(2), RetryPolicy::WaitRetry(0));
    let handler = RetryHandler::new(5, 2);
    assert_eq!(handler.handle(4), RetryPolicy::WaitRetry(16));
}

#[test]
fn attempt_count_narrows_exactly() {
    assert_eq!(from(0), 0);
    assert_eq!(from(4_000_000_000), 4_000_000_000u32);
}

#[test]
fn never_more_attempts_than_allowed() {
    let handler = RetryHandler::new(3, 100);
    assert_eq!(handler.handle(4), RetryPolicy::ForwardError);
    assert_eq!(handler.handle(usize::MAX), RetryPolicy::ForwardError);
    let handler = RetryHandler::new(0, 100);
    assert_eq!(handler.handle(1), RetryPolicy::ForwardError);
}

#[test]
fn default_policy_is_three_attempts_of_100_ms() {
    let handler = dyndns_rs::retry_handler::default_retry_handler();
    assert_eq!(handler, RetryHandler::new(3, 100));
    assert_eq!(handler.handle(1), RetryPolicy::WaitRetry(100));
    assert_eq!(handler.handle(3), RetryPolicy::ForwardError);
}
