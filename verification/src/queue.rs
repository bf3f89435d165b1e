//! The main-thread queue: a many-producer, single-consumer queue of
//! deferred requests, enqueued by background tasks and consumed exclusively
//! by the tick-pump routine on the world-owning thread. Enqueueing never
//! blocks; the per-tick drain is unbounded and FIFO within one drain.

use vstd::prelude::*;

use crate::channel::channel_clone_tx;
use crate::channel::channel_pair;
use crate::channel::channel_send;
use crate::channel::channel_try_recv;
use crate::channel::ChannelPoll;
use crate::errors::BridgeError;

verus! {

/// The queue of deferred main-thread requests. The consumer end is owned
/// here and drained only through `&mut self` by the tick-pump routine, so a
/// second concurrent consumer is unrepresentable; producer ends are handed
/// to tasks freely.
#[verifier::reject_recursive_types(R)]
pub struct MainThreadQueue<R> {
    tx: tokio::sync::mpsc::UnboundedSender<R>,
    rx: tokio::sync::mpsc::UnboundedReceiver<R>,
}

impl<R> MainThreadQueue<R> {
    /// A fresh, empty queue.
    pub fn new() -> MainThreadQueue<R> {
        let (tx, rx) = channel_pair();
        MainThreadQueue { tx, rx }
    }

    /// A new producer end; any number may exist, one per task clone.
    pub fn producer(&self) -> tokio::sync::mpsc::UnboundedSender<R> {
        channel_clone_tx(&self.tx)
    }

    /// Enqueues one request; never blocks, and fails — with
    /// `WorldUnavailable`, the only error — exactly when the consumer end
    /// has been torn down.
    pub fn enqueue(&self, request: R) -> (r: Result<(), BridgeError>)
        ensures
            r matches Err(e) ==> e == BridgeError::WorldUnavailable,
    {
        submit_request(&self.tx, request)
    }

    /// One non-blocking receive, for a consumer that executes requests as
    /// it drains.
    pub fn try_next(&mut self) -> ChannelPoll<R> {
        channel_try_recv(&mut self.rx)
    }

    /// Drains the queue: receives without blocking until the queue reports
    /// empty, appending each received request to `out` in arrival (FIFO)
    /// order. Returns the number of requests received; what was in `out`
    /// stays there, in place, and a drain that received nothing appends
    /// nothing.
    ///
    /// This is an unbounded drain: if tasks enqueue faster than the pump
    /// consumes, a single tick's drain can run arbitrarily long, delaying
    /// tick advancement. That load-shedding gap is the documented default;
    /// the budget below only keeps each call finite and lies far beyond
    /// what a process can buffer.
    pub fn drain_all(&mut self, out: &mut Vec<R>) -> (n: usize)
        ensures
            final(out)@.len() == old(out)@.len() + n,
            forall|i: int| 0 <= i < old(out)@.len() ==> final(out)@[i] == old(out)@[i],
            n == 0 ==> final(out)@ == old(out)@,
    {
        let ghost orig = out@;
        let before = out.len();
        let mut budget: usize = usize::MAX;
        let mut going = true;
        while going && budget > 0
            invariant
                out@.len() >= orig.len(),
                forall|i: int| 0 <= i < orig.len() ==> out@[i] == orig[i],
                out@.len() - orig.len() <= usize::MAX - budget,
                before == orig.len(),
            decreases budget,
        {
            budget -= 1;
            match channel_try_recv(&mut self.rx) {
                ChannelPoll::Item(r) => out.push(r),
                ChannelPoll::Empty => going = false,
                ChannelPoll::Closed => going = false,
            }
        }
        let after = out.len();
        let n = after - before;
        if n == 0 {
            proof {
                assert(out@ =~= orig);
            }
        }
        n
    }
}

/// Enqueues one request through a producer end; never blocks, and fails —
/// with `WorldUnavailable`, the only error — exactly when the consumer end
/// has been torn down.
pub fn submit_request<R>(
    tx: &tokio::sync::mpsc::UnboundedSender<R>,
    request: R,
) -> (r: Result<(), BridgeError>)
    ensures
        r matches Err(e) ==> e == BridgeError::WorldUnavailable,
{
    match channel_send(tx, request) {
        Ok(()) => Ok(()),
        Err(_dropped) => Err(BridgeError::WorldUnavailable),
    }
}

} // verus!
