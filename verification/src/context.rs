//! The capability object handed to every spawned background task: a cheap
//! cloneable handle through which a task reads the tick clock, waits for
//! tick changes, and submits work to be executed on the world-owning
//! thread. All clones share the same clock mirror, change-notification
//! subscription point, and queue producer end; a context carries no
//! exclusive state.

use std::sync::atomic::AtomicU64;
use std::sync::atomic::Ordering;
use std::sync::Arc;
use vstd::prelude::*;

use crate::errors::BridgeError;
use crate::queue::submit_request;
use crate::sleep::SleepWait;
use crate::tick::share_counter;
use crate::tick::watch_clone_rx;
use crate::tick::watch_mark_seen;
use crate::tick::watch_poll;
use crate::tick::SignalPoll;

verus! {

/// The context available to background tasks: tick-aware sleeping and
/// request submission toward the world-owning thread. `R` is the host's
/// request type, a deferred unit of main-thread work paired with its
/// response slot.
#[verifier::reject_recursive_types(R)]
pub struct TaskContext<R> {
    ticks: Arc<AtomicU64>,
    signal: tokio::sync::watch::Receiver<()>,
    submit: tokio::sync::mpsc::UnboundedSender<R>,
}

impl<R> TaskContext<R> {
    /// Assembles a context from the three shared ends. The clock mirror
    /// and signal must come from the same clock, and the producer end from
    /// the queue the world's pump drains.
    pub fn assemble(
        ticks: Arc<AtomicU64>,
        signal: tokio::sync::watch::Receiver<()>,
        submit: tokio::sync::mpsc::UnboundedSender<R>,
    ) -> TaskContext<R> {
        TaskContext { ticks, signal, submit }
    }

    /// An immediate, non-suspending read of the tick clock. The value may
    /// already be stale by the time it is used: the world may be advancing
    /// concurrently, and the caller must tolerate that.
    pub fn current_tick(&self) -> u64 {
        self.ticks.load(Ordering::SeqCst)
    }

    /// Begins a sleep of `updates` world updates from the tick observed
    /// now: the returned wait resumes once the clock reaches
    /// `current_tick() + updates`, wrapping on overflow. Waiting itself is
    /// a loop of change-notifications and `SleepWait::is_done` threshold
    /// checks against fresh `current_tick()` reads.
    pub fn begin_sleep(&self, updates: u64) -> SleepWait {
        SleepWait::new(self.current_tick(), updates)
    }

    /// A non-suspending check of the change notification: whether the tick
    /// advanced since this context last observed it, or the clock is being
    /// torn down (`Closed` — a sleeping task must surface that as
    /// `ClockClosed`, an early wake, never as a completed sleep).
    pub fn poll_tick_change(&mut self) -> SignalPoll {
        let polled = watch_poll(&self.signal);
        if matches!(polled, SignalPoll::Changed) {
            watch_mark_seen(&mut self.signal);
        }
        polled
    }

    /// Submits a request to be executed with exclusive world access by the
    /// next tick pump. Never blocks; fails — with `WorldUnavailable`, the
    /// only error — exactly when the world has been torn down.
    pub fn submit_main_thread(&self, request: R) -> (r: Result<(), BridgeError>)
        ensures
            r matches Err(e) ==> e == BridgeError::WorldUnavailable,
    {
        submit_request(&self.submit, request)
    }

    /// The change-notification subscription, for a host that suspends on
    /// it; the counter itself stays encapsulated.
    pub fn signal_mut(&mut self) -> &mut tokio::sync::watch::Receiver<()> {
        &mut self.signal
    }
}

impl<R> Clone for TaskContext<R> {
    /// All clones share the same clock, subscription point, and producer
    /// end; many tasks may hold independent clones concurrently.
    fn clone(&self) -> TaskContext<R> {
        TaskContext {
            ticks: share_counter(&self.ticks),
            signal: watch_clone_rx(&self.signal),
            submit: crate::channel::channel_clone_tx(&self.submit),
        }
    }
}

} // verus!
