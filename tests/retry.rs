use parsera::retry::{RetryAction, RetryPolicy, DEFAULT_GROWTH_PERMILLE, DEFAULT_MAX_DELAY_MS};

/// Runs a permanently failing operation under `policy`; returns the number
/// of attempts and the delays slept.
fn run_failing(policy: &RetryPolicy) -> (u32, Vec<u64>) {
    let mut state = policy.start();
    let mut attempts = 0;
    let mut delays = Vec::new();
    loop {
        attempts += 1;
        match policy.on_failure(&mut state) {
            RetryAction::GiveUp => return (attempts, delays),
            RetryAction::Retry { delay_ms } => delays.push(delay_ms),
        }
    }
}

#[test]
fn fixed_policy_retries_at_a_constant_interval() {
    let policy = RetryPolicy::fixed(10, 400);
    let (attempts, delays) = run_failing(&policy);
    assert_eq!(attempts, 11);
    assert_eq!(delays, vec![400; 10]);
}

#[test]
fn failing_operation_is_attempted_n_plus_one_times() {
    for n in [0u32, 1, 5, 30] {
        let policy = RetryPolicy::increasing(n, 800, 300);
        let (attempts, delays) = run_failing(&policy);
        assert_eq!(attempts, n + 1);
        assert_eq!(delays.len() as u32, n);
    }
}

#[test]
fn total_delay_lies_within_bounds_without_jitter() {
    let policy = RetryPolicy { max_retries: 8, min_delay_ms: 100, step_ms: 0, max_delay_ms: 1000, growth_permille: 1500 };
    let (attempts, delays) = run_failing(&policy);
    assert_eq!(attempts, 9);
    let total: u64 = delays.iter().sum();
    assert!(total >= 8 * 100 && total <= 8 * 1000);
    assert_eq!(delays, vec![100, 150, 225, 337, 505, 757, 1000, 1000]);
}

#[test]
fn every_delay_is_at_least_the_minimum_and_below_cap_plus_step() {
    let policy = RetryPolicy::increasing(30, 1000, 2000);
    let (_, delays) = run_failing(&policy);
    let total: u64 = delays.iter().sum();
    assert!(total >= 30 * 1000);
    for d in delays {
        assert!(d >= 1000);
        assert!(d < DEFAULT_MAX_DELAY_MS + 2000);
    }
}

#[test]
fn backoff_grows_by_half_within_bounds() {
    let policy = RetryPolicy::increasing(10, 800, 300);
    assert_eq!(policy.growth_permille, DEFAULT_GROWTH_PERMILLE);
    assert_eq!(policy.max_delay_ms, 20_000);
    assert_eq!(policy.backoff(300, 0), 800);
    assert_eq!(policy.backoff(1000, 100), 1600);
    assert_eq!(policy.backoff(1001, 0), 1501);
    assert_eq!(policy.backoff(20_000, 299), 20_299);
    assert_eq!(policy.backoff(u64::MAX - 1000, 5), 20_005);
}

#[test]
fn backoff_keeps_a_minimum_above_the_cap() {
    let policy = RetryPolicy { max_retries: 1, min_delay_ms: 500, step_ms: 0, max_delay_ms: 100, growth_permille: 1500 };
    assert_eq!(policy.backoff(10, 0), 500);
    assert_eq!(policy.backoff(10_000, 0), 500);
}

#[test]
fn start_counts_no_retries() {
    let policy = RetryPolicy::increasing(3, 800, 300);
    let s = policy.start();
    assert_eq!(s.retries, 0);
    assert_eq!(s.delay_ms, 300);
}

#[test]
fn jitter_stays_below_the_step() {
    let policy = RetryPolicy::increasing(1, 800, 300);
    for _ in 0..200 {
        let mut s = policy.start();
        match policy.on_failure(&mut s) {
            RetryAction::Retry { delay_ms } => {
                assert!((800..1100).contains(&delay_ms));
                assert_eq!(s.delay_ms, delay_ms);
                assert_eq!(s.retries, 1);
            }
            RetryAction::GiveUp => panic!("one retry is allowed"),
        }
        assert_eq!(policy.on_failure(&mut s), RetryAction::GiveUp);
        assert_eq!(s.retries, 1);
    }
}
