//! The dispatch cadence and the stop rules: everything the rate-paced driver
//! decides, leaving only the clock, the sleep and the task spawn to its
//! caller.

use vstd::prelude::*;

verus! {

/// A configuration the driver must refuse before any dispatch.
#[derive(Clone, Copy, PartialEq, Eq, Structural, Debug)]
pub enum ConfigError {
    ZeroRate,
}

/// What the startup probe decides after one reachability attempt.
#[derive(Clone, Copy, PartialEq, Eq, Structural, Debug)]
pub enum ProbeDecision {
    Ready,
    Retry,
    GiveUp,
}

/// The pause between dispatches, in microseconds: one million over the
/// requested rate. A zero rate would divide by zero and is refused as a
/// configuration error rather than left to hang or panic.
pub fn pacing_interval_us(rps: u64) -> (r: Result<u64, ConfigError>)
    ensures
        rps > 0 ==> r == Ok::<u64, ConfigError>(1_000_000u64 / rps),
        rps == 0 ==> r == Err::<u64, ConfigError>(ConfigError::ZeroRate),
{
    if rps == 0 {
        Err(ConfigError::ZeroRate)
    } else {
        Ok(1_000_000 / rps)
    }
}

/// The driver's stop rule: dispatching ends once the elapsed seconds reach
/// the configured duration.
pub fn dispatch_over(elapsed_secs: u64, duration: u64) -> (stop: bool)
    ensures
        stop == (elapsed_secs >= duration),
{
    elapsed_secs >= duration
}

/// How many dispatches ideal pacing yields: one at the start, then one per
/// interval until the duration is reached, so `duration * rps + 1` in all.
/// Real pacing drifts with the clock; this is the nominal window size.
pub fn ideal_dispatch_count(duration: u64, rps: u64) -> (n: u64)
    requires
        rps > 0,
        duration * rps + 1 <= u64::MAX,
    ensures
        n == duration * rps + 1,
{
    duration * rps + 1
}

/// One step of the bounded startup probe: a reachable target ends the wait;
/// an unreachable one is retried until the attempt budget is spent, then
/// given up on. `attempts_used` counts the attempt just made.
pub fn probe_decision(reachable: bool, attempts_used: u64, max_attempts: u64) -> (d:
    ProbeDecision)
    requires
        attempts_used < max_attempts,
    ensures
        reachable ==> d == ProbeDecision::Ready,
        !reachable && attempts_used + 1 < max_attempts ==> d == ProbeDecision::Retry,
        !reachable && attempts_used + 1 >= max_attempts ==> d == ProbeDecision::GiveUp,
{
    if reachable {
        ProbeDecision::Ready
    } else if attempts_used + 1 < max_attempts {
        ProbeDecision::Retry
    } else {
        ProbeDecision::GiveUp
    }
}

} // verus!
