//! The circuit breaker: its state machine and its call-wrapping policy.
//!
//! A `CircuitBreaker` guards a caller-supplied fallible operation. While
//! `Closed` it lets calls through and counts consecutive failures; once they
//! reach `max_failures` it trips to `Open` and rejects calls outright until a
//! cooldown deadline passes; the first call after the deadline moves it to
//! `HalfOpen` and probes the operation, whose outcome either resets the
//! breaker to `Closed` or drives it back towards `Open`. Any further call made
//! while already `HalfOpen` is a pure pass-through: it runs the operation and
//! returns its result without touching state or counters, so only that one
//! distinguished probe call can move the breaker out of `HalfOpen`. This
//! pass-through behaviour is deliberate and preserved exactly.
//!
//! The breaker never reads a clock of its own: every time-dependent operation
//! takes the caller's reading of a monotonic clock, in milliseconds. A
//! front end that runs on real time takes one reading per call and hands it
//! in; tests drive the breaker with explicit readings.
//!
//! All fields are private and mutable only through the methods here, so the
//! invariants of the state machine cannot be bypassed; every field remains
//! readable through an accessor.

use crate::events;
use crate::events::BreakerEvent;
use vstd::prelude::*;

verus! {

/// The three positions of the breaker's state machine.
#[derive(Clone, Copy, Debug, PartialEq, Eq, Structural)]
pub enum CircuitBreakerState {
    /// Calls proceed normally; consecutive failures are counted.
    Closed,
    /// Calls are rejected without invoking the operation, until the cooldown
    /// deadline passes.
    Open,
    /// Reached from `Open` once the cooldown elapses; the transitioning call
    /// probes the operation, later calls pass through untouched.
    HalfOpen,
}

/// The mathematical state of a breaker: every observable field.
///
/// The notification channel is deliberately absent: it carries no state the
/// policy reads.
pub ghost struct BreakerView {
    pub state: CircuitBreakerState,
    pub consecutive_failures: u32,
    pub consecutive_successes: u32,
    pub total_failures: u32,
    pub total_successes: u32,
    pub max_failures: u32,
    pub timeout_ms: u64,
    pub open_timeout_ms: u64,
    pub pause_time_ms: u64,
}

/// What `execute` decides to do with a call, given the state it found.
#[derive(Clone, Copy, Debug, PartialEq, Eq, Structural)]
pub enum CallDecision {
    /// The breaker is `Open` within its cooldown: the call is rejected with
    /// the synthetic error and the operation is not invoked.
    Reject,
    /// The operation is invoked and its outcome drives the failure and
    /// success accounting.
    Invoke,
    /// The breaker was already `HalfOpen`: the operation is invoked and its
    /// result returned as-is, with no accounting.
    PassThrough,
}

/// The view of a freshly constructed breaker: `Closed`, all counters zero.
///
/// `timeout` arrives in seconds and is kept in milliseconds, saturating at
/// the largest representable deadline.
pub open spec fn spec_new(max_failures: u32, timeout: u64, pause_time: u64) -> BreakerView {
    BreakerView {
        state: CircuitBreakerState::Closed,
        consecutive_failures: 0,
        consecutive_successes: 0,
        total_failures: 0,
        total_successes: 0,
        max_failures: max_failures,
        timeout_ms: if timeout * 1000 > u64::MAX { u64::MAX } else { (timeout * 1000) as u64 },
        open_timeout_ms: 0,
        pause_time_ms: pause_time,
    }
}

/// A counter bump that sticks at the largest representable value instead of
/// wrapping, so the lifetime counters stay monotone.
pub open spec fn spec_inc(x: u32) -> u32 {
    if x == u32::MAX {
        x
    } else {
        (x + 1) as u32
    }
}

/// The cooldown deadline a trip at clock reading `now_ms` sets: `timeout_ms`
/// later, saturating at the largest representable reading.
pub open spec fn spec_deadline(now_ms: u64, timeout_ms: u64) -> u64 {
    if now_ms + timeout_ms > u64::MAX {
        u64::MAX
    } else {
        (now_ms + timeout_ms) as u64
    }
}

/// Tripping: `Open`, both consecutive counters zeroed, the cooldown deadline
/// set `timeout_ms` past the caller's clock reading (saturating).
pub open spec fn spec_trip(v: BreakerView, now_ms: u64) -> BreakerView {
    BreakerView {
        state: CircuitBreakerState::Open,
        consecutive_failures: 0,
        consecutive_successes: 0,
        open_timeout_ms: spec_deadline(now_ms, v.timeout_ms),
        ..v
    }
}

/// Resetting: `Closed`, both consecutive counters zeroed; the lifetime
/// counters and the configuration are untouched.
pub open spec fn spec_reset(v: BreakerView) -> BreakerView {
    BreakerView {
        state: CircuitBreakerState::Closed,
        consecutive_failures: 0,
        consecutive_successes: 0,
        ..v
    }
}

/// Failure accounting: both failure counters bumped, then a trip once the
/// consecutive count meets or exceeds the threshold.
pub open spec fn spec_handle_failure(v: BreakerView, now_ms: u64) -> BreakerView {
    let bumped = BreakerView {
        consecutive_failures: spec_inc(v.consecutive_failures),
        total_failures: spec_inc(v.total_failures),
        ..v
    };
    if bumped.consecutive_failures >= bumped.max_failures {
        spec_trip(bumped, now_ms)
    } else {
        bumped
    }
}

/// Success accounting: a reset, then the lifetime success counter bumped.
pub open spec fn spec_handle_success(v: BreakerView) -> BreakerView {
    let r = spec_reset(v);
    BreakerView { total_successes: spec_inc(r.total_successes), ..r }
}

/// What `execute` decides for a call that finds the breaker in view `v` at
/// clock reading `now_ms`.
pub open spec fn spec_decision(v: BreakerView, now_ms: u64) -> CallDecision {
    match v.state {
        CircuitBreakerState::Open => if now_ms > v.open_timeout_ms {
            CallDecision::Invoke
        } else {
            CallDecision::Reject
        },
        CircuitBreakerState::HalfOpen => CallDecision::PassThrough,
        CircuitBreakerState::Closed => CallDecision::Invoke,
    }
}

/// The state after `execute`'s opening phase: `Open` past its deadline moves
/// to `HalfOpen` (counters untouched); every other state is left as found.
pub open spec fn spec_begin(v: BreakerView, now_ms: u64) -> BreakerView {
    if v.state == CircuitBreakerState::Open && now_ms > v.open_timeout_ms {
        BreakerView { state: CircuitBreakerState::HalfOpen, ..v }
    } else {
        v
    }
}

/// The state after one whole `execute` call at clock reading `now_ms`, when
/// the operation (if invoked) returned `out`: rejected and pass-through calls
/// change nothing; an invoking call first applies the opening phase, then the
/// accounting that `out` selects.
pub open spec fn spec_execute(v: BreakerView, now_ms: u64, out: Result<String, String>) -> BreakerView {
    match spec_decision(v, now_ms) {
        CallDecision::Reject => v,
        CallDecision::PassThrough => v,
        CallDecision::Invoke => {
            let begun = spec_begin(v, now_ms);
            match out {
                Ok(_) => spec_handle_success(begun),
                Err(_) => spec_handle_failure(begun, now_ms),
            }
        },
    }
}

/// The text of the synthetic error a rejected call carries, distinguishable
/// from any operation-originated failure.
pub open spec fn open_error_text() -> Seq<char> {
    "Circuit breaker is open"@
}

/// The synthetic error returned when a call is rejected while `Open`.
pub fn open_error() -> (s: String)
    ensures
        s@ == open_error_text(),
{
    "Circuit breaker is open".to_owned()
}

/// How many events the broadcast channel buffers per subscriber before a
/// slow subscriber starts missing events.
pub const EVENT_BUFFER: usize = 16;

/// A process-local circuit breaker around one unreliable operation.
///
/// Single-writer by construction: every state-changing method takes
/// `&mut self`, so sharing an instance between tasks needs an external
/// exclusivity mechanism (a mutex or a single-owner task).
pub struct CircuitBreaker {
    state: CircuitBreakerState,
    consecutive_failures: u32,
    consecutive_successes: u32,
    total_failures: u32,
    total_successes: u32,
    max_failures: u32,
    timeout_ms: u64,
    open_timeout_ms: u64,
    pause_time_ms: u64,
    sender: tokio::sync::broadcast::Sender<BreakerEvent>,
}

impl View for CircuitBreaker {
    type V = BreakerView;

    closed spec fn view(&self) -> BreakerView {
        BreakerView {
            state: self.state,
            consecutive_failures: self.consecutive_failures,
            consecutive_successes: self.consecutive_successes,
            total_failures: self.total_failures,
            total_successes: self.total_successes,
            max_failures: self.max_failures,
            timeout_ms: self.timeout_ms,
            open_timeout_ms: self.open_timeout_ms,
            pause_time_ms: self.pause_time_ms,
        }
    }
}

impl CircuitBreaker {
    /// A new breaker: `Closed`, all counters zero, tripping after
    /// `max_failures` consecutive failures, staying `Open` for `timeout`
    /// seconds, and pausing pass-through calls for `pause_time` milliseconds.
    pub fn new(max_failures: u32, timeout: u64, pause_time: u64) -> (b: Self)
        ensures
            b@ == spec_new(max_failures, timeout, pause_time),
    {
        let timeout_ms = match timeout.checked_mul(1000) {
            Some(ms) => ms,
            None => u64::MAX,
        };
        CircuitBreaker {
            state: CircuitBreakerState::Closed,
            consecutive_failures: 0,
            consecutive_successes: 0,
            total_failures: 0,
            total_successes: 0,
            max_failures,
            timeout_ms,
            open_timeout_ms: 0,
            pause_time_ms: pause_time,
            sender: events::new_event_sender(EVENT_BUFFER),
        }
    }

    /// Trip the breaker: `Open`, consecutive counters zeroed, cooldown
    /// deadline `timeout_ms` past `now_ms`; an `Opened` event is published.
    pub fn trip(&mut self, now_ms: u64)
        ensures
            final(self)@ == spec_trip(old(self)@, now_ms),
    {
        self.state = CircuitBreakerState::Open;
        self.consecutive_failures = 0;
        self.consecutive_successes = 0;
        self.open_timeout_ms = now_ms.saturating_add(self.timeout_ms);
        events::send_event(&self.sender, BreakerEvent::Opened);
    }

    /// Reset the breaker: `Closed`, consecutive counters zeroed; a `Closed`
    /// event is published on every reset, even one that finds the breaker
    /// already `Closed`.
    pub fn reset(&mut self)
        ensures
            final(self)@ == spec_reset(old(self)@),
    {
        self.state = CircuitBreakerState::Closed;
        self.consecutive_failures = 0;
        self.consecutive_successes = 0;
        events::send_event(&self.sender, BreakerEvent::Closed);
    }

    /// Record one failure of the operation: both failure counters are
    /// bumped, and the breaker trips once the consecutive count meets or
    /// exceeds `max_failures`.
    pub fn handle_failure(&mut self, now_ms: u64)
        ensures
            final(self)@ == spec_handle_failure(old(self)@, now_ms),
    {
        self.consecutive_failures = self.consecutive_failures.saturating_add(1);
        self.total_failures = self.total_failures.saturating_add(1);
        if self.consecutive_failures >= self.max_failures {
            self.trip(now_ms);
        }
    }

    /// Record one success of the operation: the breaker is reset (publishing
    /// a `Closed` event even when already `Closed`), then the lifetime
    /// success counter is bumped.
    pub fn handle_success(&mut self)
        ensures
            final(self)@ == spec_handle_success(old(self)@),
    {
        self.reset();
        self.total_successes = self.total_successes.saturating_add(1);
    }

    /// The opening phase of `execute`: decide what to do with a call
    /// arriving at clock reading `now_ms`, and move an `Open` breaker whose
    /// cooldown has elapsed to `HalfOpen` (publishing a `HalfOpened` event).
    ///
    /// The decision is taken on the state as found, so the call that causes
    /// the `Open` to `HalfOpen` transition itself gets `Invoke`, and only
    /// calls that found the breaker already `HalfOpen` get `PassThrough`.
    pub fn begin_execute(&mut self, now_ms: u64) -> (d: CallDecision)
        ensures
            d == spec_decision(old(self)@, now_ms),
            final(self)@ == spec_begin(old(self)@, now_ms),
    {
        match self.state {
            CircuitBreakerState::Open => {
                if now_ms > self.open_timeout_ms {
                    self.state = CircuitBreakerState::HalfOpen;
                    events::send_event(&self.sender, BreakerEvent::HalfOpened);
                    CallDecision::Invoke
                } else {
                    CallDecision::Reject
                }
            },
            CircuitBreakerState::HalfOpen => CallDecision::PassThrough,
            CircuitBreakerState::Closed => CallDecision::Invoke,
        }
    }

    /// The closing phase of `execute`: given the decision of
    /// [`Self::begin_execute`] and the operation's result, apply the
    /// accounting and produce the call's result.
    ///
    /// A `Reject` yields the synthetic error and changes nothing (the
    /// operation's result is not consulted); a `PassThrough` returns the
    /// result untouched and changes nothing; an `Invoke` feeds the result
    /// into the success or failure accounting and returns it verbatim.
    pub fn finish_execute(&mut self, decision: CallDecision, now_ms: u64, result: Result<String, String>) -> (r: Result<
        String,
        String,
    >)
        ensures
            decision is Reject ==> final(self)@ == old(self)@ && (r matches Err(m) && m@
                == open_error_text()),
            decision is PassThrough ==> final(self)@ == old(self)@ && r == result,
            decision is Invoke ==> r == result && final(self)@ == (match result {
                Ok(_) => spec_handle_success(old(self)@),
                Err(_) => spec_handle_failure(old(self)@, now_ms),
            }),
    {
        match decision {
            CallDecision::Reject => Err(open_error()),
            CallDecision::PassThrough => result,
            CallDecision::Invoke => {
                match result {
                    Ok(payload) => {
                        self.handle_success();
                        Ok(payload)
                    },
                    Err(reason) => {
                        self.handle_failure(now_ms);
                        Err(reason)
                    },
                }
            },
        }
    }

    /// Guarded invocation of `op`, the sole call-path entry point.
    ///
    /// `Open` within its cooldown rejects the call with the synthetic error,
    /// never invoking `op`. `Open` past its cooldown moves to `HalfOpen` and
    /// falls through to the normal path: `op` runs once and its outcome
    /// drives the accounting, which may reset the breaker or re-trip it.
    /// Already `HalfOpen` runs `op` and returns its result with no
    /// accounting at all. `Closed` runs `op` with normal accounting.
    ///
    /// The caller supplies `now_ms`, its reading of a monotonic clock for
    /// this call; the pass-through pause (`pause_time_ms`) is timing, not
    /// state, and is observed by the front end that owns the clock.
    pub fn execute<F: FnOnce() -> Result<String, String>>(&mut self, now_ms: u64, op: F) -> (r: Result<
        String,
        String,
    >)
        requires
            call_requires(op, ()),
        ensures
            spec_decision(old(self)@, now_ms) is Reject ==> final(self)@ == old(self)@
                && (r matches Err(m) && m@ == open_error_text()),
            !(spec_decision(old(self)@, now_ms) is Reject) ==> call_ensures(op, (), r)
                && final(self)@ == spec_execute(old(self)@, now_ms, r),
    {
        let decision = self.begin_execute(now_ms);
        match decision {
            CallDecision::Reject => Err(open_error()),
            CallDecision::PassThrough => op(),
            CallDecision::Invoke => {
                let result = op();
                self.finish_execute(CallDecision::Invoke, now_ms, result)
            },
        }
    }

    /// A fresh receive half of the event channel: it observes every event
    /// published after this call.
    pub fn subscribe(&self) -> tokio::sync::broadcast::Receiver<BreakerEvent> {
        events::subscribe_events(&self.sender)
    }

    /// The current position of the state machine.
    pub fn state(&self) -> (s: CircuitBreakerState)
        ensures
            s == self@.state,
    {
        self.state
    }

    /// Failures recorded since the last state-affecting transition.
    pub fn consecutive_failures(&self) -> (n: u32)
        ensures
            n == self@.consecutive_failures,
    {
        self.consecutive_failures
    }

    /// Kept for observability; no path ever raises it above zero.
    pub fn consecutive_successes(&self) -> (n: u32)
        ensures
            n == self@.consecutive_successes,
    {
        self.consecutive_successes
    }

    /// Lifetime count of recorded failures; never reset.
    pub fn total_failures(&self) -> (n: u32)
        ensures
            n == self@.total_failures,
    {
        self.total_failures
    }

    /// Lifetime count of recorded successes; never reset.
    pub fn total_successes(&self) -> (n: u32)
        ensures
            n == self@.total_successes,
    {
        self.total_successes
    }

    /// The consecutive-failure threshold that trips the breaker.
    pub fn max_failures(&self) -> (n: u32)
        ensures
            n == self@.max_failures,
    {
        self.max_failures
    }

    /// How long a tripped breaker stays `Open`, in milliseconds.
    pub fn timeout_ms(&self) -> (n: u64)
        ensures
            n == self@.timeout_ms,
    {
        self.timeout_ms
    }

    /// The cooldown deadline set by the last trip; consulted only while
    /// `Open`.
    pub fn open_timeout_ms(&self) -> (n: u64)
        ensures
            n == self@.open_timeout_ms,
    {
        self.open_timeout_ms
    }

    /// The pause imposed on pass-through calls, in milliseconds.
    pub fn pause_time_ms(&self) -> (n: u64)
        ensures
            n == self@.pause_time_ms,
    {
        self.pause_time_ms
    }
}

} // verus!
