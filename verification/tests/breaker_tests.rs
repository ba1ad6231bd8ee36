use circuit_breaker::breaker::CircuitBreaker;
use circuit_breaker::breaker::CircuitBreakerState;
use circuit_breaker::breaker::CallDecision;
use circuit_breaker::breaker::open_error;
use circuit_breaker::events::BreakerEvent;

fn ok(payload: &str) -> Result<String, String> {
    Ok(payload.to_string())
}

fn fail(reason: &str) -> Result<String, String> {
    Err(reason.to_string())
}

#[test]
fn new_starts_closed_with_zero_counters() {
    let b = CircuitBreaker::new(3, 1, 7);
    assert_eq!(b.state(), CircuitBreakerState::Closed);
    assert_eq!(b.consecutive_failures(), 0);
    assert_eq!(b.consecutive_successes(), 0);
    assert_eq!(b.total_failures(), 0);
    assert_eq!(b.total_successes(), 0);
    assert_eq!(b.max_failures(), 3);
    assert_eq!(b.timeout_ms(), 1000);
    assert_eq!(b.open_timeout_ms(), 0);
    assert_eq!(b.pause_time_ms(), 7);
}

#[test]
fn open_error_has_the_fixed_message() {
    assert_eq!(open_error(), "Circuit breaker is open".to_string());
}

#[test]
fn scenario_trip_reject_then_recover() {
    // max_failures = 3, timeout = 1 s, pause_time = 0 ms.
    let mut b = CircuitBreaker::new(3, 1, 0);

    for _ in 0..3 {
        let r = b.execute(0, || fail("boom"));
        assert_eq!(r, Err("boom".to_string()));
    }
    assert_eq!(b.state(), CircuitBreakerState::Open);
    assert_eq!(b.total_failures(), 3);

    // A fourth call before the cooldown elapses is rejected outright.
    let mut called = false;
    let r = b.execute(500, || {
        called = true;
        ok("should not run")
    });
    assert_eq!(r, Err("Circuit breaker is open".to_string()));
    assert!(!called);
    assert_eq!(b.total_failures(), 3);
    assert_eq!(b.total_successes(), 0);

    // After the cooldown, a succeeding call closes the breaker.
    let r = b.execute(1001, || ok("recovered"));
    assert_eq!(r, Ok("recovered".to_string()));
    assert_eq!(b.state(), CircuitBreakerState::Closed);
    assert_eq!(b.total_successes(), 1);
    assert_eq!(b.total_failures(), 3);
}

#[test]
fn failures_beyond_threshold_do_not_retrip() {
    let mut b = CircuitBreaker::new(2, 1, 0);
    let _ = b.execute(0, || fail("a"));
    let _ = b.execute(1, || fail("b"));
    assert_eq!(b.state(), CircuitBreakerState::Open);
    assert_eq!(b.open_timeout_ms(), 1001);
    assert_eq!(b.total_failures(), 2);

    // Further failing calls within the cooldown are rejected: the breaker is
    // idempotently open, and the deadline never moves.
    for now in [2u64, 50, 900, 1001] {
        let r = b.execute(now, || fail("c"));
        assert_eq!(r, Err("Circuit breaker is open".to_string()));
        assert_eq!(b.state(), CircuitBreakerState::Open);
        assert_eq!(b.open_timeout_ms(), 1001);
        assert_eq!(b.total_failures(), 2);
    }
}

#[test]
fn open_within_cooldown_rejects_without_invoking() {
    let mut b = CircuitBreaker::new(2, 1, 0);
    b.trip(100);
    assert_eq!(b.open_timeout_ms(), 1100);

    for now in [100u64, 500, 1100] {
        let mut called = false;
        let r = b.execute(now, || {
            called = true;
            fail("never seen")
        });
        assert_eq!(r, Err("Circuit breaker is open".to_string()));
        assert!(!called);
        assert_eq!(b.state(), CircuitBreakerState::Open);
        assert_eq!(b.total_failures(), 0);
        assert_eq!(b.total_successes(), 0);
        assert_eq!(b.consecutive_failures(), 0);
    }
}

#[test]
fn probe_success_closes_the_breaker() {
    let mut b = CircuitBreaker::new(3, 1, 0);
    b.trip(0);
    let r = b.execute(1001, || ok("alive"));
    assert_eq!(r, Ok("alive".to_string()));
    assert_eq!(b.state(), CircuitBreakerState::Closed);
    assert_eq!(b.total_successes(), 1);
    assert_eq!(b.consecutive_failures(), 0);
}

#[test]
fn probe_failure_retrips_at_threshold_one() {
    let mut b = CircuitBreaker::new(1, 1, 0);
    b.trip(0);
    let r = b.execute(1001, || fail("still down"));
    assert_eq!(r, Err("still down".to_string()));
    assert_eq!(b.state(), CircuitBreakerState::Open);
    assert_eq!(b.consecutive_failures(), 0);
    assert_eq!(b.total_failures(), 1);
    // The re-trip sets a fresh cooldown deadline from the probe's reading.
    assert_eq!(b.open_timeout_ms(), 2001);
}

#[test]
fn probe_failure_below_threshold_stays_half_open() {
    let mut b = CircuitBreaker::new(3, 1, 0);
    b.trip(0);
    let r = b.execute(1001, || fail("still down"));
    assert_eq!(r, Err("still down".to_string()));
    assert_eq!(b.state(), CircuitBreakerState::HalfOpen);
    assert_eq!(b.consecutive_failures(), 1);
    assert_eq!(b.total_failures(), 1);
}

#[test]
fn half_open_pass_through_changes_nothing() {
    let mut b = CircuitBreaker::new(3, 1, 0);
    b.trip(0);
    // The distinguished probe call fails below the threshold: stable HalfOpen.
    let _ = b.execute(1001, || fail("probe"));
    assert_eq!(b.state(), CircuitBreakerState::HalfOpen);

    for i in 0..10u64 {
        let r = if i % 2 == 0 {
            b.execute(2000 + i, || ok("through"))
        } else {
            b.execute(2000 + i, || fail("through"))
        };
        if i % 2 == 0 {
            assert_eq!(r, Ok("through".to_string()));
        } else {
            assert_eq!(r, Err("through".to_string()));
        }
        assert_eq!(b.state(), CircuitBreakerState::HalfOpen);
        assert_eq!(b.consecutive_failures(), 1);
        assert_eq!(b.total_failures(), 1);
        assert_eq!(b.total_successes(), 0);
    }
}

#[test]
fn totals_never_decrease_over_a_mixed_sequence() {
    let mut b = CircuitBreaker::new(2, 1, 0);
    let mut last_failures = 0u32;
    let mut last_successes = 0u32;

    let mut check = |b: &CircuitBreaker, last_failures: &mut u32, last_successes: &mut u32| {
        assert!(b.total_failures() >= *last_failures);
        assert!(b.total_successes() >= *last_successes);
        *last_failures = b.total_failures();
        *last_successes = b.total_successes();
    };

    let _ = b.execute(0, || fail("a"));
    check(&b, &mut last_failures, &mut last_successes);
    let _ = b.execute(1, || ok("b"));
    check(&b, &mut last_failures, &mut last_successes);
    b.trip(2);
    check(&b, &mut last_failures, &mut last_successes);
    b.reset();
    check(&b, &mut last_failures, &mut last_successes);
    b.handle_failure(3);
    check(&b, &mut last_failures, &mut last_successes);
    b.handle_success();
    check(&b, &mut last_failures, &mut last_successes);
    let _ = b.execute(4, || fail("c"));
    check(&b, &mut last_failures, &mut last_successes);
    assert_eq!(b.total_failures(), 3);
    assert_eq!(b.total_successes(), 2);
}

#[test]
fn trip_then_reset_round_trip() {
    let mut b = CircuitBreaker::new(5, 1, 0);
    b.handle_failure(0);
    b.handle_failure(1);
    assert_eq!(b.consecutive_failures(), 2);

    b.trip(10);
    b.reset();
    assert_eq!(b.state(), CircuitBreakerState::Closed);
    assert_eq!(b.consecutive_failures(), 0);
    assert_eq!(b.consecutive_successes(), 0);
    assert_eq!(b.total_failures(), 2);
    assert_eq!(b.total_successes(), 0);
}

#[test]
fn handle_success_resets_and_counts() {
    let mut b = CircuitBreaker::new(5, 1, 0);
    b.handle_failure(0);
    b.handle_failure(1);
    b.handle_success();
    assert_eq!(b.state(), CircuitBreakerState::Closed);
    assert_eq!(b.consecutive_failures(), 0);
    assert_eq!(b.total_successes(), 1);
    assert_eq!(b.total_failures(), 2);
}

#[test]
fn zero_threshold_trips_on_first_failure() {
    let mut b = CircuitBreaker::new(0, 1, 0);
    let r = b.execute(0, || fail("boom"));
    assert_eq!(r, Err("boom".to_string()));
    assert_eq!(b.state(), CircuitBreakerState::Open);
    assert_eq!(b.total_failures(), 1);
}

#[test]
fn timeout_and_deadline_saturate() {
    let b = CircuitBreaker::new(1, u64::MAX, 0);
    assert_eq!(b.timeout_ms(), u64::MAX);

    let mut c = CircuitBreaker::new(1, 1, 0);
    c.trip(u64::MAX - 10);
    assert_eq!(c.open_timeout_ms(), u64::MAX);
}

#[test]
fn begin_and_finish_execute_phases() {
    let mut b = CircuitBreaker::new(2, 1, 0);
    assert_eq!(b.begin_execute(0), CallDecision::Invoke);

    b.trip(0);
    assert_eq!(b.begin_execute(1000), CallDecision::Reject);
    let r = b.finish_execute(CallDecision::Reject, 1000, Ok("ignored".to_string()));
    assert_eq!(r, Err("Circuit breaker is open".to_string()));
    assert_eq!(b.state(), CircuitBreakerState::Open);

    assert_eq!(b.begin_execute(1001), CallDecision::Invoke);
    assert_eq!(b.state(), CircuitBreakerState::HalfOpen);
    let r = b.finish_execute(CallDecision::Invoke, 1001, Ok("fine".to_string()));
    assert_eq!(r, Ok("fine".to_string()));
    assert_eq!(b.state(), CircuitBreakerState::Closed);
    assert_eq!(b.total_successes(), 1);

    // A pass-through hands the result back untouched and changes nothing.
    b.trip(2000);
    let _ = b.begin_execute(3001);
    let r = b.finish_execute(CallDecision::PassThrough, 3001, Err("raw".to_string()));
    assert_eq!(r, Err("raw".to_string()));
    assert_eq!(b.state(), CircuitBreakerState::HalfOpen);
    assert_eq!(b.total_failures(), 0);
}

#[test]
fn events_are_published_on_transitions() {
    let mut b = CircuitBreaker::new(1, 1, 0);
    let mut rx = b.subscribe();

    b.trip(0);
    assert_eq!(rx.try_recv().unwrap(), BreakerEvent::Opened);

    b.reset();
    assert_eq!(rx.try_recv().unwrap(), BreakerEvent::Closed);

    b.trip(10);
    assert_eq!(rx.try_recv().unwrap(), BreakerEvent::Opened);
    let _ = b.begin_execute(2000);
    assert_eq!(rx.try_recv().unwrap(), BreakerEvent::HalfOpened);

    // Nothing else was published.
    assert!(rx.try_recv().is_err());
}

#[test]
fn every_success_publishes_a_close_event() {
    let mut b = CircuitBreaker::new(3, 1, 0);
    let mut rx = b.subscribe();
    let _ = b.execute(0, || ok("a"));
    let _ = b.execute(1, || ok("b"));
    assert_eq!(rx.try_recv().unwrap(), BreakerEvent::Closed);
    assert_eq!(rx.try_recv().unwrap(), BreakerEvent::Closed);
}

#[test]
fn emission_without_subscribers_is_harmless() {
    let mut b = CircuitBreaker::new(1, 1, 0);
    b.trip(0);
    b.reset();
    let _ = b.execute(0, || ok("quiet"));
    assert_eq!(b.state(), CircuitBreakerState::Closed);
}

#[test]
fn subscribers_only_see_later_events() {
    let mut b = CircuitBreaker::new(1, 1, 0);
    b.trip(0);
    let mut rx = b.subscribe();
    assert!(rx.try_recv().is_err());
    b.reset();
    assert_eq!(rx.try_recv().unwrap(), BreakerEvent::Closed);
}

#[test]
fn event_labels_match_the_wire_names() {
    assert_eq!(BreakerEvent::Opened.label(), "open");
    assert_eq!(BreakerEvent::Closed.label(), "close");
    assert_eq!(BreakerEvent::HalfOpened.label(), "halfOpen");
}
