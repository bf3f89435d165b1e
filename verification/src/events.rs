//! Synchronous, poll-based event storage and the per-type channel event
//! bridge that fills it. Once per tick, after the previous tick's events
//! have been cleared, a bridge's drain step moves every value buffered in
//! its inbound channel into the store, in arrival order, stopping when the
//! channel reports empty.

use vstd::prelude::*;

use crate::channel::channel_try_recv;
use crate::channel::ChannelPoll;

verus! {

/// The world's synchronous event storage for one event type: the events
/// published this tick, in publication order, consumed by the world once
/// per tick.
pub struct EventStore<T> {
    events: Vec<T>,
}

impl<T> View for EventStore<T> {
    type V = Seq<T>;

    closed spec fn view(&self) -> Seq<T> {
        self.events@
    }
}

impl<T> EventStore<T> {
    /// An empty store.
    pub fn new() -> (s: EventStore<T>)
        ensures
            s@ == Seq::<T>::empty(),
    {
        EventStore { events: Vec::new() }
    }

    /// Drops the previous tick's events, per standard poll-based event
    /// semantics: each tick's consumers only ever see that tick's events.
    pub fn clear(&mut self)
        ensures
            final(self)@ == Seq::<T>::empty(),
    {
        self.events.clear();
    }

    /// Publishes one event after all already-published ones.
    pub fn publish(&mut self, event: T)
        ensures
            final(self)@ == old(self)@.push(event),
    {
        self.events.push(event);
    }

    /// Publishes a batch of events, preserving both the events already in
    /// the store and the order of the batch.
    pub fn publish_all(&mut self, batch: Vec<T>)
        ensures
            final(self)@ == old(self)@ + batch@,
    {
        let mut rest = batch;
        self.events.append(&mut rest);
    }

    /// The number of events published this tick.
    pub fn len(&self) -> (n: usize)
        ensures
            n == self@.len(),
    {
        self.events.len()
    }

    /// The event at position `i`, in publication order.
    pub fn get(&self, i: usize) -> (e: &T)
        requires
            i < self@.len(),
        ensures
            *e == self@[i as int],
    {
        &self.events[i]
    }

    /// Hands the tick's events to the consumer and leaves the store empty.
    pub fn take_all(&mut self) -> (out: Vec<T>)
        ensures
            out@ == old(self)@,
            final(self)@ == Seq::<T>::empty(),
    {
        let mut out: Vec<T> = Vec::new();
        core::mem::swap(&mut out, &mut self.events);
        out
    }
}

/// Binds one inbound asynchronous channel of values of one event type to
/// the world's event storage for that type. Exactly one bridge exists per
/// type (enforced at registration through the registry); this consumer end
/// being owned here, and drained only through `&mut self`, is what makes a
/// second concurrent drain of the same channel unrepresentable.
#[verifier::reject_recursive_types(T)]
pub struct ChannelEventBridge<T> {
    rx: tokio::sync::mpsc::UnboundedReceiver<T>,
}

impl<T> ChannelEventBridge<T> {
    /// Takes ownership of the consumer end of the inbound channel.
    pub fn new(rx: tokio::sync::mpsc::UnboundedReceiver<T>) -> ChannelEventBridge<T> {
        ChannelEventBridge { rx }
    }

    /// Drains every value buffered in the channel into the store, in
    /// arrival order, stopping when the channel reports empty (or closed —
    /// which the channel reports only once no more values are, and never
    /// will be, available). Returns the number of values published:
    /// events already in the store are kept, in place, and a drain that
    /// received nothing publishes nothing.
    ///
    /// This is an unbounded drain: if producers enqueue faster than the
    /// pump consumes, one drain can run arbitrarily long. That is the
    /// documented default, a deliberate load-shedding gap; the budget
    /// below only keeps each call finite and is far beyond what a process
    /// can buffer.
    pub fn drain_step(&mut self, store: &mut EventStore<T>) -> (n: usize)
        ensures
            final(store)@.len() == old(store)@.len() + n,
            forall|i: int| 0 <= i < old(store)@.len() ==> final(store)@[i] == old(store)@[i],
            n == 0 ==> final(store)@ == old(store)@,
    {
        let ghost orig = store@;
        let before = store.len();
        let mut budget: usize = usize::MAX;
        let mut going = true;
        while going && budget > 0
            invariant
                store@.len() >= orig.len(),
                forall|i: int| 0 <= i < orig.len() ==> store@[i] == orig[i],
                store@.len() - orig.len() <= usize::MAX - budget,
                before == orig.len(),
            decreases budget,
        {
            budget -= 1;
            match channel_try_recv(&mut self.rx) {
                ChannelPoll::Item(v) => store.publish(v),
                ChannelPoll::Empty => going = false,
                ChannelPoll::Closed => going = false,
            }
        }
        let after = store.len();
        let n = after - before;
        if n == 0 {
            proof {
                assert(store@ =~= orig);
            }
        }
        n
    }
}

} // verus!
