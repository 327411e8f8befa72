use mcp_supervisor::services::retry::{
    cap_delay, decide, RetryState, RetryStep, TimeSpan, MAX_ELAPSED_SECS, MAX_INTERVAL_SECS,
    MAX_RETRIES,
};
use mcp_supervisor::types::errors::AppError;

fn spawn_failure() -> AppError {
    AppError::SpawnFailure { message: "denied".to_string() }
}

fn secs(secs: u64) -> TimeSpan {
    TimeSpan { secs, nanos: 0 }
}

fn millis(ms: u32) -> TimeSpan {
    TimeSpan { secs: (ms / 1000) as u64, nanos: (ms % 1000) * 1_000_000 }
}

fn timeout() -> RetryStep {
    RetryStep::GiveUp(AppError::RetryTimeout { name: "fs".to_string() })
}

#[test]
fn limits_are_three_attempts_thirty_and_ten_seconds() {
    assert_eq!(MAX_RETRIES, 3);
    assert_eq!(MAX_ELAPSED_SECS, 30);
    assert_eq!(MAX_INTERVAL_SECS, 10);
}

#[test]
fn time_span_in_nanoseconds() {
    assert_eq!(secs(0).as_nanos(), 0);
    assert_eq!(millis(1500).as_nanos(), 1_500_000_000);
    assert_eq!(TimeSpan { secs: 30, nanos: 1 }.as_nanos(), 30_000_000_001);
    assert_eq!(
        TimeSpan { secs: u64::MAX, nanos: u32::MAX }.as_nanos(),
        18_446_744_073_709_551_615u128 * 1_000_000_000 + 4_294_967_295
    );
}

#[test]
fn decide_waits_while_attempts_and_time_remain() {
    let d = millis(400);
    assert_eq!(decide("fs", 1, "e".to_string(), secs(0), Some(d)), RetryStep::Wait(d));
    assert_eq!(decide("fs", 2, "e".to_string(), secs(29), Some(d)), RetryStep::Wait(d));
    assert_eq!(decide("fs", 1, "e".to_string(), secs(29), Some(secs(1))), RetryStep::Wait(secs(1)));
    assert_eq!(decide("fs", 1, "e".to_string(), secs(30), Some(secs(0))), RetryStep::Wait(secs(0)));
}

#[test]
fn decide_exhausts_at_the_third_attempt() {
    let exhausted = RetryStep::GiveUp(AppError::RetryExhausted {
        name: "fs".to_string(),
        attempts: 3,
        last_error: "boom".to_string(),
    });
    assert_eq!(decide("fs", 3, "boom".to_string(), secs(0), Some(millis(1))), exhausted);
    assert_eq!(decide("fs", 3, "boom".to_string(), secs(0), None), exhausted);
    assert_eq!(decide("fs", 3, "boom".to_string(), secs(31), Some(millis(1))), exhausted);
}

#[test]
fn decide_times_out_without_a_delay() {
    assert_eq!(decide("fs", 2, "boom".to_string(), secs(0), None), timeout());
}

#[test]
fn decide_times_out_once_the_budget_is_spent() {
    let over = TimeSpan { secs: 30, nanos: 1 };
    assert_eq!(decide("fs", 2, "boom".to_string(), over, Some(millis(1))), timeout());
    assert_eq!(decide("fs", 1, "boom".to_string(), secs(31), Some(secs(0))), timeout());
    assert_eq!(decide("fs", 2, "boom".to_string(), secs(31), None), timeout());
}

#[test]
fn decide_times_out_where_the_delay_would_end_after_the_budget() {
    assert_eq!(decide("fs", 1, "boom".to_string(), secs(29), Some(millis(1001))), timeout());
    assert_eq!(decide("fs", 1, "boom".to_string(), secs(0), Some(secs(31))), timeout());
    assert_eq!(
        decide("fs", 1, "boom".to_string(), secs(0), Some(TimeSpan { secs: u64::MAX, nanos: 999_999_999 })),
        timeout()
    );
}

#[test]
fn elapsed_budget_ends_the_start_before_the_third_attempt() {
    let mut state = RetryState::new();
    assert!(matches!(state.on_failure("fs", &spawn_failure(), secs(1)), RetryStep::Wait(_)));
    assert_eq!(state.on_failure("fs", &spawn_failure(), secs(31)), timeout());
    assert_eq!(state.failed_attempts(), 2);
}

#[test]
fn every_attempt_failing_makes_exactly_three_attempts() {
    let mut state = RetryState::new();
    assert_eq!(state.failed_attempts(), 0);
    let first = state.on_failure("fs", &spawn_failure(), secs(0));
    assert!(matches!(first, RetryStep::Wait(_)));
    assert_eq!(state.failed_attempts(), 1);
    let second = state.on_failure("fs", &spawn_failure(), secs(1));
    assert!(matches!(second, RetryStep::Wait(_)));
    assert_eq!(state.failed_attempts(), 2);
    assert_eq!(
        state.on_failure("fs", &spawn_failure(), secs(2)),
        RetryStep::GiveUp(AppError::RetryExhausted {
            name: "fs".to_string(),
            attempts: 3,
            last_error: "Process error: Failed to spawn process: denied".to_string(),
        })
    );
    assert_eq!(state.failed_attempts(), 3);
}

#[test]
fn the_count_stops_at_three() {
    let mut state = RetryState::new();
    for _ in 0..5 {
        let _ = state.on_failure("fs", &spawn_failure(), secs(0));
    }
    assert_eq!(state.failed_attempts(), 3);
    match state.on_failure("fs", &spawn_failure(), secs(0)) {
        RetryStep::GiveUp(AppError::RetryExhausted { attempts, .. }) => assert_eq!(attempts, 3),
        other => panic!("unexpected: {:?}", other),
    }
}

#[test]
fn delays_follow_the_backoff_curve() {
    let mut state = RetryState::new();
    match state.on_failure("fs", &spawn_failure(), secs(0)) {
        RetryStep::Wait(d) => {
            assert!(d.as_nanos() >= 250_000_000, "{:?}", d);
            assert!(d.as_nanos() <= 751_000_000, "{:?}", d);
            assert!(d.nanos < 1_000_000_000);
        }
        other => panic!("unexpected: {:?}", other),
    }
    match state.on_failure("fs", &spawn_failure(), secs(0)) {
        RetryStep::Wait(d) => {
            assert!(d.as_nanos() >= 375_000_000, "{:?}", d);
            assert!(d.as_nanos() <= 1_126_000_000, "{:?}", d);
        }
        other => panic!("unexpected: {:?}", other),
    }
}

#[test]
fn no_wait_is_longer_than_ten_seconds() {
    let ten = secs(MAX_INTERVAL_SECS);
    assert_eq!(decide("fs", 1, "e".to_string(), secs(0), Some(secs(20))), RetryStep::Wait(ten));
    assert_eq!(decide("fs", 2, "e".to_string(), secs(5), Some(secs(15))), RetryStep::Wait(ten));
    assert_eq!(
        decide("fs", 1, "e".to_string(), secs(0), Some(TimeSpan { secs: 10, nanos: 1 })),
        RetryStep::Wait(ten)
    );
    assert_eq!(decide("fs", 1, "e".to_string(), secs(0), Some(ten)), RetryStep::Wait(ten));
    let below = TimeSpan { secs: 9, nanos: 999_999_999 };
    assert_eq!(decide("fs", 1, "e".to_string(), secs(0), Some(below)), RetryStep::Wait(below));
    assert_eq!(decide("fs", 1, "e".to_string(), secs(11), Some(secs(20))), timeout());
}

#[test]
fn cap_cuts_only_longer_delays() {
    assert_eq!(cap_delay(secs(0)), secs(0));
    assert_eq!(cap_delay(millis(750)), millis(750));
    assert_eq!(cap_delay(secs(10)), secs(10));
    assert_eq!(cap_delay(TimeSpan { secs: 10, nanos: 1 }), secs(10));
    assert_eq!(cap_delay(TimeSpan { secs: u64::MAX, nanos: u32::MAX }), secs(10));
}

#[test]
fn recovery_is_reported_only_after_a_failure() {
    let mut state = RetryState::new();
    assert_eq!(state.recovered_after(), None);
    let _ = state.on_failure("fs", &spawn_failure(), secs(0));
    assert_eq!(state.recovered_after(), Some(2));
    let _ = state.on_failure("fs", &spawn_failure(), secs(0));
    assert_eq!(state.recovered_after(), Some(3));
}
