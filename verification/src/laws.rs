//! Laws of the breaker's state machine, proved over the same spec functions
//! that the executable methods' contracts use.
//!
//! The laws quantify over whole call sequences where they speak of one: a
//! sequence is a `Seq<BreakerOp>`, one constructor per public mutator, folded
//! over a starting view by [`run_ops`].

use crate::breaker::BreakerView;
use crate::breaker::spec_begin;
use crate::breaker::spec_deadline;
use crate::breaker::spec_decision;
use crate::breaker::spec_execute;
use crate::breaker::spec_handle_failure;
use crate::breaker::spec_handle_success;
use crate::breaker::spec_inc;
use crate::breaker::spec_reset;
use crate::breaker::spec_trip;
use vstd::prelude::*;

verus! {

/// One call against a breaker's public mutators: the argument of each
/// constructor is what the matching method takes, with `Call` standing for a
/// whole `execute` at one clock reading whose operation, if invoked,
/// returned the carried result.
pub ghost enum BreakerOp {
    Trip(u64),
    Reset,
    Failure(u64),
    Success,
    Call(u64, Result<String, String>),
}

/// The view after one call.
pub open spec fn apply_op(v: BreakerView, op: BreakerOp) -> BreakerView {
    match op {
        BreakerOp::Trip(now_ms) => spec_trip(v, now_ms),
        BreakerOp::Reset => spec_reset(v),
        BreakerOp::Failure(now_ms) => spec_handle_failure(v, now_ms),
        BreakerOp::Success => spec_handle_success(v),
        BreakerOp::Call(now_ms, out) => spec_execute(v, now_ms, out),
    }
}

/// The view after a whole call sequence, first call first.
pub open spec fn run_ops(v: BreakerView, ops: Seq<BreakerOp>) -> BreakerView
    decreases ops.len(),
{
    if ops.len() == 0 {
        v
    } else {
        run_ops(apply_op(v, ops[0]), ops.drop_first())
    }
}

/// Well-formedness of a view: the success streak counter is never raised
/// above zero by any path, and the failure streak is below the threshold
/// whenever it is nonzero (reaching the threshold trips, which zeroes it).
/// In particular the two streak counters are never nonzero together.
pub open spec fn wf(v: BreakerView) -> bool {
    &&& v.consecutive_successes == 0
    &&& (v.consecutive_failures == 0 || v.consecutive_failures < v.max_failures)
}

/// Law: every single call preserves well-formedness.
pub proof fn lemma_wf_preserved(v: BreakerView, op: BreakerOp)
    requires
        wf(v),
    ensures
        wf(apply_op(v, op)),
{
}

/// Law: no single call, of any kind, decreases a lifetime counter; in
/// particular `trip` and `reset` leave both exactly as they were.
pub proof fn lemma_totals_monotonic_step(v: BreakerView, op: BreakerOp)
    ensures
        apply_op(v, op).total_failures >= v.total_failures,
        apply_op(v, op).total_successes >= v.total_successes,
        op is Trip || op is Reset ==> apply_op(v, op).total_failures == v.total_failures
            && apply_op(v, op).total_successes == v.total_successes,
{
}

/// Law: across any call sequence whatever, `total_failures` and
/// `total_successes` are monotonically non-decreasing.
pub proof fn lemma_totals_monotonic(v: BreakerView, ops: Seq<BreakerOp>)
    ensures
        run_ops(v, ops).total_failures >= v.total_failures,
        run_ops(v, ops).total_successes >= v.total_successes,
    decreases ops.len(),
{
    if ops.len() > 0 {
        lemma_totals_monotonic_step(v, ops[0]);
        lemma_totals_monotonic(apply_op(v, ops[0]), ops.drop_first());
    }
}

/// Law: while `Open` within the cooldown, a call is rejected and the whole
/// view — counters included — is left exactly as it was.
pub proof fn lemma_open_rejects(v: BreakerView, now_ms: u64, out: Result<String, String>)
    requires
        v.state is Open,
        now_ms <= v.open_timeout_ms,
    ensures
        spec_decision(v, now_ms) is Reject,
        spec_execute(v, now_ms, out) == v,
{
}

/// Law: once the cooldown has elapsed, the next call is the distinguished
/// probe: it is invoked, the breaker passes through `HalfOpen`, and the
/// probe's outcome decides where it lands — `Closed` on success; `Open`
/// again when the failure brings the streak back to the threshold; and
/// `HalfOpen` with a nonzero failure streak otherwise.
pub proof fn lemma_probe_after_cooldown(v: BreakerView, now_ms: u64, out: Result<String, String>)
    requires
        v.state is Open,
        now_ms > v.open_timeout_ms,
    ensures
        spec_decision(v, now_ms) is Invoke,
        spec_begin(v, now_ms).state is HalfOpen,
        out is Ok ==> spec_execute(v, now_ms, out).state is Closed,
        out is Err && spec_inc(v.consecutive_failures) >= v.max_failures ==> spec_execute(
            v,
            now_ms,
            out,
        ).state is Open,
        out is Err && spec_inc(v.consecutive_failures) < v.max_failures ==> spec_execute(
            v,
            now_ms,
            out,
        ).state is HalfOpen && spec_execute(v, now_ms, out).consecutive_failures > 0,
{
}

/// Law: a call that finds the breaker already `HalfOpen` passes through:
/// whatever the operation returned, the view is left exactly as it was.
pub proof fn lemma_half_open_passes_through(v: BreakerView, now_ms: u64, out: Result<String, String>)
    requires
        v.state is HalfOpen,
    ensures
        spec_decision(v, now_ms) is PassThrough,
        spec_execute(v, now_ms, out) == v,
{
}

/// Law: however many calls are made against a breaker that is already
/// `HalfOpen`, at whatever readings and with whatever outcomes, the view
/// never changes: only the one distinguished probe call (which happened
/// before `HalfOpen` was entered) can move the breaker out of it.
pub proof fn lemma_half_open_stable(v: BreakerView, ops: Seq<BreakerOp>)
    requires
        v.state is HalfOpen,
        forall|i: int| 0 <= i < ops.len() ==> ops[i] is Call,
    ensures
        run_ops(v, ops) == v,
    decreases ops.len(),
{
    if ops.len() > 0 {
        assert(ops[0] is Call);
        lemma_half_open_stable(v, ops.drop_first());
    }
}

/// Law: `trip` followed immediately by `reset` lands in `Closed` with both
/// streak counters at zero and both lifetime counters untouched, whatever
/// the counters held beforehand.
pub proof fn lemma_trip_then_reset(v: BreakerView, now_ms: u64)
    ensures
        spec_reset(spec_trip(v, now_ms)).state is Closed,
        spec_reset(spec_trip(v, now_ms)).consecutive_failures == 0,
        spec_reset(spec_trip(v, now_ms)).consecutive_successes == 0,
        spec_reset(spec_trip(v, now_ms)).total_failures == v.total_failures,
        spec_reset(spec_trip(v, now_ms)).total_successes == v.total_successes,
{
}

/// The view after a run of `execute` calls whose operation fails every time
/// it is invoked, the call at position `i` arriving at reading `nows[i]`.
pub open spec fn run_failing_calls(v: BreakerView, nows: Seq<u64>, reason: String) -> BreakerView
    decreases nows.len(),
{
    if nows.len() == 0 {
        v
    } else {
        run_failing_calls(spec_execute(v, nows[0], Err(reason)), nows.drop_first(), reason)
    }
}

/// Splitting a failing run at any point changes nothing.
proof fn lemma_run_failing_concat(v: BreakerView, a: Seq<u64>, b: Seq<u64>, reason: String)
    ensures
        run_failing_calls(v, a + b, reason) == run_failing_calls(
            run_failing_calls(v, a, reason),
            b,
            reason,
        ),
    decreases a.len(),
{
    if a.len() == 0 {
        assert(a + b =~= b);
    } else {
        assert((a + b)[0] == a[0]);
        assert((a + b).drop_first() =~= a.drop_first() + b);
        lemma_run_failing_concat(spec_execute(v, a[0], Err(reason)), a.drop_first(), b, reason);
    }
}

/// A failing run too short to reach the threshold stays `Closed` and only
/// lengthens the failure streak.
proof fn lemma_closed_failing_run(v: BreakerView, nows: Seq<u64>, reason: String)
    requires
        v.state is Closed,
        v.consecutive_failures + nows.len() < v.max_failures,
    ensures
        run_failing_calls(v, nows, reason).state is Closed,
        run_failing_calls(v, nows, reason).consecutive_failures == v.consecutive_failures
            + nows.len(),
        run_failing_calls(v, nows, reason).consecutive_successes == v.consecutive_successes,
        run_failing_calls(v, nows, reason).max_failures == v.max_failures,
        run_failing_calls(v, nows, reason).timeout_ms == v.timeout_ms,
        run_failing_calls(v, nows, reason).open_timeout_ms == v.open_timeout_ms,
        run_failing_calls(v, nows, reason).pause_time_ms == v.pause_time_ms,
        run_failing_calls(v, nows, reason).total_successes == v.total_successes,
    decreases nows.len(),
{
    if nows.len() > 0 {
        let w = spec_execute(v, nows[0], Err(reason));
        assert(w.consecutive_failures == v.consecutive_failures + 1);
        lemma_closed_failing_run(w, nows.drop_first(), reason);
    }
}

/// A run of calls that all arrive while `Open`, before the cooldown
/// deadline, is rejected throughout and changes nothing.
proof fn lemma_open_rejected_run(v: BreakerView, nows: Seq<u64>, reason: String)
    requires
        v.state is Open,
        forall|i: int| 0 <= i < nows.len() ==> nows[i] <= v.open_timeout_ms,
    ensures
        run_failing_calls(v, nows, reason) == v,
    decreases nows.len(),
{
    if nows.len() > 0 {
        assert(nows[0] <= v.open_timeout_ms);
        lemma_open_rejected_run(v, nows.drop_first(), reason);
    }
}

/// Law: starting `Closed` with a clean streak, a run of consecutively
/// failing calls of length at least `max_failures` trips the breaker
/// exactly once — at the call that reaches the threshold — and every later
/// call of the run, arriving within the cooldown the trip set, is rejected
/// and changes nothing at all: after the threshold call the view never
/// moves again.
pub proof fn lemma_failures_trip_exactly_once(v: BreakerView, nows: Seq<u64>, reason: String)
    requires
        v.state is Closed,
        v.consecutive_failures == 0,
        1 <= v.max_failures <= nows.len(),
        forall|i: int|
            v.max_failures <= i < nows.len() ==> #[trigger] nows[i] <= spec_deadline(
                nows[v.max_failures - 1],
                v.timeout_ms,
            ),
    ensures
        run_failing_calls(v, nows, reason).state is Open,
        run_failing_calls(v, nows, reason) == run_failing_calls(
            v,
            nows.take(v.max_failures as int),
            reason,
        ),
        run_failing_calls(v, nows, reason).open_timeout_ms == spec_deadline(
            nows[v.max_failures - 1],
            v.timeout_ms,
        ),
{
    let m = v.max_failures as int;
    let head = nows.take(m - 1);
    let probe = nows.subrange(m - 1, m);
    let tail = nows.skip(m);

    lemma_closed_failing_run(v, head, reason);
    let w = run_failing_calls(v, head, reason);

    assert(nows.take(m) =~= head + probe);
    lemma_run_failing_concat(v, head, probe, reason);
    let tripped = spec_execute(w, nows[m - 1], Err(reason));
    assert(run_failing_calls(w, probe, reason) == tripped) by {
        assert(probe[0] == nows[m - 1]);
        let rest = probe.drop_first();
        assert(run_failing_calls(w, probe, reason) == run_failing_calls(
            spec_execute(w, probe[0], Err(reason)),
            rest,
            reason,
        ));
        assert(rest.len() == 0);
        assert(run_failing_calls(tripped, rest, reason) == tripped);
    }
    assert(spec_inc(w.consecutive_failures) == v.max_failures);
    assert(tripped.state is Open);
    assert(tripped.open_timeout_ms == spec_deadline(nows[m - 1], v.timeout_ms));

    assert(nows =~= nows.take(m) + tail);
    lemma_run_failing_concat(v, nows.take(m), tail, reason);
    assert(forall|i: int|
        0 <= i < tail.len() ==> tail[i] <= tripped.open_timeout_ms) by {
        assert(forall|i: int| 0 <= i < tail.len() ==> tail[i] == nows[m + i]);
    }
    lemma_open_rejected_run(tripped, tail, reason);
}

} // verus!
