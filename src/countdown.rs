use vstd::prelude::*;

verus! {

/// Milliseconds in one second.
pub const MS_PER_SEC: u64 = 1000;

/// How a single countdown ended.
#[derive(Clone, Copy, Debug, PartialEq, Eq, Structural)]
pub enum CountdownOutcome {
    CompletedNormally,
    InterruptedEarly,
}

/// What the countdown loop does on one tick: show the whole seconds that
/// are left and sleep until the next tick, or stop with an outcome.
#[derive(Clone, Copy, Debug, PartialEq, Eq, Structural)]
pub enum Tick {
    Render(u64),
    Finished(CountdownOutcome),
}

/// Whole seconds left of a countdown of `duration_secs` seconds after
/// `elapsed_ms` milliseconds, rounded down.
pub open spec fn remaining_secs(duration_secs: nat, elapsed_ms: nat) -> int {
    (duration_secs * 1000 - elapsed_ms) / 1000
}

/// The decision of one tick of a countdown of `duration_secs` seconds,
/// `elapsed_ms` milliseconds (on a monotonic clock) after it started, with
/// the cancellation flag reading `running`.
pub open spec fn tick_spec(duration_secs: nat, elapsed_ms: nat, running: bool) -> Tick {
    if !running {
        Tick::Finished(CountdownOutcome::InterruptedEarly)
    } else if elapsed_ms >= duration_secs * 1000 {
        Tick::Finished(CountdownOutcome::CompletedNormally)
    } else {
        Tick::Render(remaining_secs(duration_secs, elapsed_ms) as u64)
    }
}

/// Decides one tick of a cancellable countdown. While the deadline has not
/// passed and the flag says to continue, the caller renders the remaining
/// seconds and sleeps one second; otherwise the countdown is over, and it is
/// interrupted exactly when the flag says to stop.
pub fn countdown_tick(duration_secs: u64, elapsed_ms: u64, running: bool) -> (t: Tick)
    ensures
        t == tick_spec(duration_secs as nat, elapsed_ms as nat, running),
        t matches Tick::Render(r) ==> r <= duration_secs,
{
    if !running {
        return Tick::Finished(CountdownOutcome::InterruptedEarly);
    }
    let whole: u64 = elapsed_ms / MS_PER_SEC;
    let part: u64 = elapsed_ms % MS_PER_SEC;
    if whole >= duration_secs {
        return Tick::Finished(CountdownOutcome::CompletedNormally);
    }
    let left: u64 = if part == 0 {
        duration_secs - whole
    } else {
        duration_secs - whole - 1
    };
    proof {
        lemma_remaining(duration_secs as nat, whole as nat, part as nat);
    }
    Tick::Render(left)
}

proof fn lemma_remaining(d: nat, w: nat, p: nat)
    requires
        w < d,
        p < 1000,
    ensures
        (w * 1000 + p >= d * 1000) == false,
        remaining_secs(d, w * 1000 + p) == if p == 0 { d - w } else { d - w - 1 },
{
    let k = (d - w) as nat;
    assert(d * 1000 - (w * 1000 + p) == k * 1000 - p) by (nonlinear_arith)
        requires k == d - w;
    assert(k >= 1);
    if p == 0 {
        assert((k * 1000) / 1000 == k) by (nonlinear_arith);
    } else {
        assert((k * 1000 - p) / 1000 == k - 1) by (nonlinear_arith)
            requires k >= 1, 0 < p < 1000;
    }
}

/// A countdown whose flag says to continue completes normally once its
/// deadline has passed, and before that shows a whole number of seconds
/// that is the remaining time rounded down, so within one second of it.
pub proof fn lemma_continuing_countdown_completes(duration_secs: nat, elapsed_ms: nat)
    ensures
        tick_spec(duration_secs, elapsed_ms, true) != Tick::Finished(
            CountdownOutcome::InterruptedEarly,
        ),
        elapsed_ms >= duration_secs * 1000 ==> tick_spec(duration_secs, elapsed_ms, true)
            == Tick::Finished(CountdownOutcome::CompletedNormally),
        elapsed_ms < duration_secs * 1000 ==> {
            let left = remaining_secs(duration_secs, elapsed_ms);
            &&& tick_spec(duration_secs, elapsed_ms, true) == Tick::Render(left as u64)
            &&& 0 <= left <= duration_secs
            &&& left * 1000 <= duration_secs * 1000 - elapsed_ms < left * 1000 + 1000
        },
{
    if elapsed_ms < duration_secs * 1000 {
        let rest = duration_secs * 1000 - elapsed_ms;
        let left = remaining_secs(duration_secs, elapsed_ms);
        assert(left * 1000 <= rest < left * 1000 + 1000) by (nonlinear_arith)
            requires left == rest / 1000, rest >= 0;
        assert(left <= duration_secs) by (nonlinear_arith)
            requires left * 1000 <= rest, rest <= duration_secs * 1000;
    }
}

/// Once the flag says to stop, a countdown never shows another remaining
/// time: it ends interrupted on its next tick, whatever the time.
pub proof fn lemma_stopped_countdown_never_renders(duration_secs: nat, elapsed_ms: nat)
    ensures
        tick_spec(duration_secs, elapsed_ms, false) == Tick::Finished(
            CountdownOutcome::InterruptedEarly,
        ),
{
}

/// A countdown of zero seconds whose flag says to continue completes on its
/// first tick, without showing anything or sleeping.
pub proof fn lemma_zero_countdown_completes(elapsed_ms: nat)
    ensures
        tick_spec(0, elapsed_ms, true) == Tick::Finished(CountdownOutcome::CompletedNormally),
{
}

} // verus!
