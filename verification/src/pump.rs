//! The resource owned by the world-owning thread: it owns the tick clock,
//! the main-thread queue's consumer end, and the bridge registry, and once
//! per world update runs the tick pump — advance the clock first, then
//! drain the queued main-thread requests, so every request drained this
//! tick executes at the already-advanced tick value.

use vstd::prelude::*;

use crate::channel::ChannelPoll;
use crate::errors::BridgeError;
use crate::queue::MainThreadQueue;
use crate::registry::BridgeRegistry;
use crate::sleep::SleepWait;
use crate::tick::tick_succ_spec;
use crate::tick::TickClock;

verus! {

/// Owns the clock, the queue, and the registry; lives on the world-owning
/// thread and is pumped exactly once per world update.
#[verifier::reject_recursive_types(R)]
pub struct BridgeHandle<R> {
    clock: TickClock,
    queue: MainThreadQueue<R>,
    registry: BridgeRegistry,
    pumping: bool,
}

impl<R> BridgeHandle<R> {
    /// The clock this handle owns.
    pub closed spec fn clock_spec(self) -> TickClock {
        self.clock
    }

    /// The keys of the registered bridges.
    pub closed spec fn registry_spec(self) -> Seq<u64> {
        self.registry@
    }

    /// Whether a split pump session is open.
    pub closed spec fn pumping_spec(self) -> bool {
        self.pumping
    }

    /// Well-formed: the clock mirrors its logical advance count and no
    /// event type is registered twice.
    pub open spec fn wf(self) -> bool {
        self.clock_spec().wf() && crate::registry::distinct_keys(self.registry_spec())
    }

    /// A fresh handle at tick zero, with an empty queue, no bridges, and
    /// no pump session open.
    pub fn new() -> (h: BridgeHandle<R>)
        ensures
            h.wf(),
            h.clock_spec().count_spec() == 0,
            h.clock_spec().total_spec() == 0,
            h.registry_spec() == Seq::<u64>::empty(),
            !h.pumping_spec(),
    {
        BridgeHandle {
            clock: TickClock::new(),
            queue: MainThreadQueue::new(),
            registry: BridgeRegistry::new(),
            pumping: false,
        }
    }

    /// The current tick, read on the world-owning thread; exact, since
    /// only this thread advances the clock.
    pub fn current_tick(&self) -> (t: u64)
        ensures
            t == self.clock_spec().count_spec(),
    {
        self.clock.current()
    }

    /// A fresh task context wired to this handle's clock and queue, for a
    /// newly spawned background task or any code acting as one.
    pub fn task_context(&self) -> crate::context::TaskContext<R> {
        crate::context::TaskContext::assemble(
            self.clock.counter_handle(),
            self.clock.subscribe(),
            self.queue.producer(),
        )
    }

    /// Records a bridge for the event type identified by `key`. Fails with
    /// `DuplicateBridge`, changing nothing, if and only if a bridge for
    /// that type already exists; distinct types register independently.
    pub fn register_bridge(&mut self, key: u64) -> (r: Result<(), BridgeError>)
        requires
            old(self).wf(),
        ensures
            final(self).wf(),
            final(self).clock_spec() == old(self).clock_spec(),
            final(self).pumping_spec() == old(self).pumping_spec(),
            old(self).registry_spec().contains(key) ==> r == Err::<(), BridgeError>(
                BridgeError::DuplicateBridge,
            ) && final(self).registry_spec() == old(self).registry_spec(),
            !old(self).registry_spec().contains(key) ==> r == Ok::<(), BridgeError>(())
                && final(self).registry_spec() == old(self).registry_spec().push(key),
    {
        self.registry.register(key)
    }

    /// Opens a pump session: advances the clock by one tick — waking every
    /// sleeper whose target it reaches — and returns the new tick value.
    /// The host then runs each registered bridge's drain step and closes
    /// the session with `pump_finish`. Fails with `InvariantViolation`,
    /// changing nothing, if and only if a session is already open: the
    /// pump must never run concurrently with itself, and a violation fails
    /// loudly rather than silently retrying.
    pub fn pump_begin(&mut self) -> (r: Result<u64, BridgeError>)
        requires
            old(self).wf(),
        ensures
            final(self).wf(),
            final(self).registry_spec() == old(self).registry_spec(),
            old(self).pumping_spec() ==> r == Err::<u64, BridgeError>(
                BridgeError::InvariantViolation,
            ) && *final(self) == *old(self),
            !old(self).pumping_spec() ==> {
                &&& final(self).pumping_spec()
                &&& final(self).clock_spec().total_spec() == old(self).clock_spec().total_spec()
                    + 1
                &&& final(self).clock_spec().count_spec() == tick_succ_spec(
                    old(self).clock_spec().count_spec(),
                )
                &&& r == Ok::<u64, BridgeError>(final(self).clock_spec().count_spec())
            },
    {
        if self.pumping {
            Err(BridgeError::InvariantViolation)
        } else {
            self.pumping = true;
            let t = self.clock.advance();
            Ok(t)
        }
    }

    /// One non-blocking receive from the main-thread queue, for a pump
    /// that executes requests as it drains; FIFO within a tick.
    pub fn next_request(&mut self) -> (r: ChannelPoll<R>)
        requires
            old(self).wf(),
        ensures
            final(self).wf(),
            final(self).clock_spec() == old(self).clock_spec(),
            final(self).registry_spec() == old(self).registry_spec(),
            final(self).pumping_spec() == old(self).pumping_spec(),
    {
        self.queue.try_next()
    }

    /// Closes a pump session, draining the queued main-thread requests
    /// into `out` in arrival (FIFO) order — what was in `out` stays, in
    /// place, and a drain that received nothing appends nothing. Returns
    /// the number of requests drained. Fails with `InvariantViolation`,
    /// changing nothing, if and only if no session is open.
    pub fn pump_finish(&mut self, out: &mut Vec<R>) -> (r: Result<usize, BridgeError>)
        requires
            old(self).wf(),
        ensures
            final(self).wf(),
            final(self).clock_spec() == old(self).clock_spec(),
            final(self).registry_spec() == old(self).registry_spec(),
            !old(self).pumping_spec() ==> r == Err::<usize, BridgeError>(
                BridgeError::InvariantViolation,
            ) && *final(self) == *old(self) && *final(out) == *old(out),
            old(self).pumping_spec() ==> {
                &&& !final(self).pumping_spec()
                &&& r matches Ok(n) && final(out)@.len() == old(out)@.len() + n && (n == 0
                    ==> final(out)@ == old(out)@)
                &&& forall|i: int|
                    0 <= i < old(out)@.len() ==> final(out)@[i] == old(out)@[i]
            },
    {
        if !self.pumping {
            Err(BridgeError::InvariantViolation)
        } else {
            let n = self.queue.drain_all(out);
            self.pumping = false;
            Ok(n)
        }
    }

    /// The whole per-update pump for a host with no typed bridges to
    /// drain: advance the clock first, then drain the queue, so every
    /// request drained here executes at the tick value this call returns —
    /// a request enqueued at tick `T` and drained by the next pump runs at
    /// `T + 1`, not `T`. Returns the new tick value. Fails with
    /// `InvariantViolation`, changing nothing, if and only if a split
    /// session is open.
    pub fn tick_pump(&mut self, out: &mut Vec<R>) -> (r: Result<u64, BridgeError>)
        requires
            old(self).wf(),
        ensures
            final(self).wf(),
            final(self).registry_spec() == old(self).registry_spec(),
            old(self).pumping_spec() ==> r == Err::<u64, BridgeError>(
                BridgeError::InvariantViolation,
            ) && *final(self) == *old(self) && *final(out) == *old(out),
            !old(self).pumping_spec() ==> {
                &&& !final(self).pumping_spec()
                &&& final(self).clock_spec().total_spec() == old(self).clock_spec().total_spec()
                    + 1
                &&& final(self).clock_spec().count_spec() == tick_succ_spec(
                    old(self).clock_spec().count_spec(),
                )
                &&& r == Ok::<u64, BridgeError>(final(self).clock_spec().count_spec())
                &&& final(out)@.len() >= old(out)@.len()
                &&& forall|i: int|
                    0 <= i < old(out)@.len() ==> final(out)@[i] == old(out)@[i]
            },
    {
        let t = match self.pump_begin() {
            Ok(t) => t,
            Err(e) => {
                return Err(e);
            },
        };
        match self.pump_finish(out) {
            Ok(_) => Ok(t),
            Err(e) => Err(e),
        }
    }

    /// Begins a sleep of `updates` ticks from the current tick, as a task
    /// running on the world thread would observe it; exact, unlike the
    /// cross-thread read in `TaskContext::begin_sleep`.
    pub fn begin_sleep(&self, updates: u64) -> (w: SleepWait)
        ensures
            w.target_spec() == crate::sleep::sleep_target_spec(
                self.clock_spec().count_spec(),
                updates,
            ),
    {
        SleepWait::new(self.clock.current(), updates)
    }
}

} // verus!
