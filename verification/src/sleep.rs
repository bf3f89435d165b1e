//! Tick-aware sleeping: a task that wants to sleep for `n` world updates
//! records a target tick and then waits on the clock's change notification,
//! re-checking a threshold each time it wakes. The check is a comparison
//! against the target, not a count of wake-ups, so it tolerates the clock
//! advancing by more than one tick between observations (coalescing).

use vstd::prelude::*;
use vstd::wrapping::u64_specs;

use crate::errors::BridgeError;
use crate::tick::SignalPoll;

verus! {

/// The tick at which a sleep begun at `observed` for `updates` updates may
/// resume: their sum, wrapping on counter overflow.
pub open spec fn sleep_target_spec(observed: u64, updates: u64) -> u64 {
    u64_specs::wrapping_add(observed, updates)
}

/// Whether a sleep aiming at `target` may resume given the clock value just
/// observed.
pub open spec fn sleep_done_spec(target: u64, current: u64) -> bool {
    current >= target
}

/// A pending tick-sleep: the target tick recorded when the sleep began.
#[derive(Clone, Copy, Debug, PartialEq, Eq, Structural)]
pub struct SleepWait {
    target: u64,
}

impl SleepWait {
    /// The tick this sleep is waiting for.
    pub closed spec fn target_spec(self) -> u64 {
        self.target
    }

    /// Begins a sleep of `updates` world updates from the tick value
    /// observed at call time.
    pub fn new(observed: u64, updates: u64) -> (w: SleepWait)
        ensures
            w.target_spec() == sleep_target_spec(observed, updates),
    {
        SleepWait { target: observed.wrapping_add(updates) }
    }

    /// Whether the sleeping task may resume, given a fresh read of the
    /// clock. Checking a threshold rather than counting wake-ups is what
    /// makes missed intermediate ticks harmless.
    pub fn is_done(&self, current: u64) -> (r: bool)
        ensures
            r == sleep_done_spec(self.target_spec(), current),
    {
        current >= self.target
    }
}

/// One round of the sleep loop, deciding from a fresh clock read and the
/// latest report of the change notification: `Ok(true)` resumes the
/// sleeper, `Ok(false)` sends it back to wait for the next change, and
/// `Err(ClockClosed)` surfaces teardown as an early wake — never as a
/// completed sleep. The threshold is checked first, so a sleep whose
/// target was reached completes even as the clock is torn down.
pub fn sleep_step(wait: &SleepWait, current: u64, signal: SignalPoll) -> (r: Result<
    bool,
    BridgeError,
>)
    ensures
        sleep_done_spec(wait.target_spec(), current) ==> r == Ok::<bool, BridgeError>(true),
        !sleep_done_spec(wait.target_spec(), current) && signal == SignalPoll::Closed ==> r
            == Err::<bool, BridgeError>(BridgeError::ClockClosed),
        !sleep_done_spec(wait.target_spec(), current) && signal != SignalPoll::Closed ==> r
            == Ok::<bool, BridgeError>(false),
{
    if wait.is_done(current) {
        Ok(true)
    } else if matches!(signal, SignalPoll::Closed) {
        Err(BridgeError::ClockClosed)
    } else {
        Ok(false)
    }
}

/// Law: away from counter wraparound, a sleep of `updates` ticks begun at
/// tick `observed` resumes exactly when the clock has reached
/// `observed + updates` — never earlier, and on any later observation.
pub proof fn lemma_sleep_resumes_exactly(observed: u64, updates: u64, current: u64)
    requires
        observed + updates <= u64::MAX,
    ensures
        sleep_done_spec(sleep_target_spec(observed, updates), current) <==> current
            >= observed + updates,
{
}

/// Law (coalescing correctness): resumption is monotone in the observed
/// clock value, so a waiter that only sees the latest tick — having missed
/// any number of intermediate advances — still resumes once the clock has
/// passed its target.
pub proof fn lemma_sleep_coalescing(target: u64, earlier: u64, later: u64)
    requires
        earlier <= later,
        sleep_done_spec(target, earlier),
    ensures
        sleep_done_spec(target, later),
{
}

} // verus!
