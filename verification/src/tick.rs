//! The world's tick clock: a counter of elapsed world updates, advanced by
//! one per update by the tick-pump routine, wrapping on overflow. A shared
//! lock-free mirror of the counter and a coalescing change notification let
//! background tasks observe the clock from any thread.

use std::sync::atomic::AtomicU64;
use std::sync::atomic::Ordering;
use std::sync::Arc;
use vstd::arithmetic::div_mod::lemma_add_mod_noop;
use vstd::arithmetic::div_mod::lemma_mod_self_0;
use vstd::arithmetic::div_mod::lemma_small_mod;
use vstd::prelude::*;

verus! {

/// The number of distinct tick values: the counter counts modulo 2^64.
pub open spec fn tick_modulus() -> int {
    0x1_0000_0000_0000_0000
}

/// The successor of a tick value: the counter advances by one per world
/// update and wraps on overflow. Wraparound is tolerated, not an error.
pub open spec fn tick_succ_spec(t: u64) -> u64 {
    if t == u64::MAX {
        0
    } else {
        (t + 1) as u64
    }
}

/// The counter value reached after `n` advances from zero.
pub open spec fn tick_of(n: nat) -> u64
    decreases n,
{
    if n == 0 {
        0
    } else {
        tick_succ_spec(tick_of((n - 1) as nat))
    }
}

/// Law: the observable counter is the logical number of elapsed ticks
/// reduced modulo 2^64. The logical count only ever grows, so the counter
/// observed across any sequence of advances is monotonically non-decreasing
/// modulo wraparound.
pub proof fn lemma_tick_of_is_mod(n: nat)
    ensures
        tick_of(n) as int == n as int % tick_modulus(),
    decreases n,
{
    let m = tick_modulus();
    if n == 0 {
        lemma_small_mod(0, m as nat);
    } else {
        lemma_tick_of_is_mod((n - 1) as nat);
        let r = (n - 1) as int % m;
        lemma_add_mod_noop((n - 1) as int, 1, m);
        lemma_small_mod(1, m as nat);
        assert(n as int % m == (r + 1) % m);
        if r == m - 1 {
            lemma_mod_self_0(m);
        } else {
            lemma_small_mod((r + 1) as nat, m as nat);
        }
    }
}

/// Computes the successor of a tick value, wrapping on overflow.
pub fn tick_succ(t: u64) -> (r: u64)
    ensures
        r == tick_succ_spec(t),
{
    if t == u64::MAX {
        0
    } else {
        t + 1
    }
}

#[verifier::external_type_specification]
#[verifier::external_body]
#[verifier::reject_recursive_types(T)]
pub struct ExWatchSender<T>(tokio::sync::watch::Sender<T>);

#[verifier::external_type_specification]
#[verifier::external_body]
#[verifier::reject_recursive_types(T)]
pub struct ExWatchReceiver<T>(tokio::sync::watch::Receiver<T>);

/// What a non-suspending check of the change notification reports.
#[derive(Clone, Copy, Debug, PartialEq, Eq, Structural)]
pub enum SignalPoll {
    /// The clock advanced since this subscription last observed it.
    Changed,
    /// Nothing new since the last observation.
    Unchanged,
    /// The clock has been torn down; no further change will ever come.
    Closed,
}

/// Relies on tokio::sync::watch::channel: creates the sender half of a
/// single-slot, latest-value-only notification channel.
#[verifier::external_body]
fn watch_sender_only() -> tokio::sync::watch::Sender<()> {
    tokio::sync::watch::channel(()).0
}

/// Relies on tokio::sync::watch::Sender::send_replace: stores a new value
/// in the slot and marks it changed for every current and future receiver;
/// unlike send, it succeeds even while no receiver exists.
#[verifier::external_body]
fn watch_publish(tx: &tokio::sync::watch::Sender<()>) {
    tx.send_replace(());
}

/// Relies on tokio::sync::watch::Sender::subscribe: creates a new receiver
/// subscribed to this sender; the value currently in the slot is marked seen.
#[verifier::external_body]
fn watch_subscribe(tx: &tokio::sync::watch::Sender<()>) -> tokio::sync::watch::Receiver<()> {
    tx.subscribe()
}

/// Relies on tokio::sync::watch::Receiver::clone: the clone observes the
/// same sender, with its own marker of what it has seen.
#[verifier::external_body]
pub(crate) fn watch_clone_rx(
    rx: &tokio::sync::watch::Receiver<()>,
) -> tokio::sync::watch::Receiver<()> {
    rx.clone()
}

/// Relies on tokio::sync::watch::Receiver::has_changed: reports whether a
/// value this receiver has not yet seen is in the slot, or that every
/// sender is gone.
#[verifier::external_body]
pub(crate) fn watch_poll(rx: &tokio::sync::watch::Receiver<()>) -> SignalPoll {
    match rx.has_changed() {
        Ok(true) => SignalPoll::Changed,
        Ok(false) => SignalPoll::Unchanged,
        Err(_) => SignalPoll::Closed,
    }
}

/// Relies on tokio::sync::watch::Receiver::borrow_and_update: marks the
/// value currently in the slot as seen by this receiver.
#[verifier::external_body]
pub(crate) fn watch_mark_seen(rx: &mut tokio::sync::watch::Receiver<()>) {
    rx.borrow_and_update();
}

/// Relies on std::sync::Arc::clone: yields a handle to the same shared
/// counter cell.
#[verifier::external_body]
pub(crate) fn share_counter(cell: &Arc<AtomicU64>) -> Arc<AtomicU64> {
    cell.clone()
}

/// The authoritative world tick clock.
///
/// The counter is owned and advanced only by the tick-pump routine on the
/// world-owning thread. A lock-free mirror of the value is shared with
/// background tasks; the raw counter itself is never exposed. Waiters are
/// notified of advances through a coalescing single-slot signal: a waiter
/// that checks late only ever sees the current tick, never a queue of past
/// ticks.
pub struct TickClock {
    /// The counter, as last written by `advance`.
    count: u64,
    /// The logical number of advances since construction; never wraps.
    total: Ghost<nat>,
    /// Mirror of `count`, readable lock-free from any thread.
    cell: Arc<AtomicU64>,
    /// Wakes waiting tasks when the tick advances; latest-value-only.
    signal: tokio::sync::watch::Sender<()>,
}

impl TickClock {
    /// The counter value, as the pump thread sees it.
    pub closed spec fn count_spec(self) -> u64 {
        self.count
    }

    /// The logical number of advances since construction.
    pub closed spec fn total_spec(self) -> nat {
        self.total@
    }

    /// Well-formed: the counter is the image of the logical advance count.
    pub closed spec fn wf(self) -> bool {
        self.count == tick_of(self.total@)
    }

    /// Law: in a well-formed clock the counter equals the logical number of
    /// elapsed ticks modulo 2^64.
    pub proof fn lemma_count_is_total_mod(self)
        requires
            self.wf(),
        ensures
            self.count_spec() as int == self.total_spec() as int % tick_modulus(),
    {
        lemma_tick_of_is_mod(self.total@);
    }

    /// A fresh clock at tick zero.
    pub fn new() -> (c: TickClock)
        ensures
            c.wf(),
            c.count_spec() == 0,
            c.total_spec() == 0,
    {
        TickClock {
            count: 0,
            total: Ghost(0),
            cell: Arc::new(AtomicU64::new(0)),
            signal: watch_sender_only(),
        }
    }

    /// Advances the clock by one tick, wrapping on overflow, publishes the
    /// new value to the shared mirror, and wakes all current and future
    /// waiters. Returns the new tick value. Callable only by the tick-pump
    /// routine.
    pub fn advance(&mut self) -> (t: u64)
        requires
            old(self).wf(),
        ensures
            final(self).wf(),
            final(self).total_spec() == old(self).total_spec() + 1,
            final(self).count_spec() == tick_succ_spec(old(self).count_spec()),
            t == final(self).count_spec(),
    {
        let next = tick_succ(self.count);
        self.count = next;
        self.total = Ghost(self.total@ + 1);
        self.cell.store(next, Ordering::SeqCst);
        watch_publish(&self.signal);
        next
    }

    /// Reads the counter from the pump thread; exact, since only the pump
    /// thread writes it.
    pub fn current(&self) -> (t: u64)
        ensures
            t == self.count_spec(),
    {
        self.count
    }

    /// A new subscription point for tick-change notifications; tasks wait
    /// on it for the next advance.
    pub fn subscribe(&self) -> tokio::sync::watch::Receiver<()> {
        watch_subscribe(&self.signal)
    }

    /// A new handle on the shared mirror of the counter, for reads from
    /// other threads. The value read there may lag behind `count_spec`
    /// while an advance is in flight.
    pub fn counter_handle(&self) -> Arc<AtomicU64> {
        share_counter(&self.cell)
    }
}

} // verus!
