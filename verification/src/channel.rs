//! Trusted glue around the unbounded many-producer, single-consumer channel
//! that both the main-thread queue and the channel event bridges drain.
//! Values put into the channel by concurrent producers are not visible to
//! the verifier, so the contracts here state only what holds of every
//! outcome; the logic that consumes the received values is verified.

use vstd::prelude::*;

verus! {

#[verifier::external_type_specification]
#[verifier::external_body]
#[verifier::reject_recursive_types(T)]
pub struct ExUnboundedSender<T>(tokio::sync::mpsc::UnboundedSender<T>);

#[verifier::external_type_specification]
#[verifier::external_body]
#[verifier::reject_recursive_types(T)]
pub struct ExUnboundedReceiver<T>(tokio::sync::mpsc::UnboundedReceiver<T>);

/// What one non-blocking receive from a channel reports.
pub enum ChannelPoll<T> {
    /// The next buffered value, in arrival order.
    Item(T),
    /// No value is buffered right now; more may yet arrive.
    Empty,
    /// No value is buffered and none will ever arrive: every producer is
    /// gone and the buffer is exhausted.
    Closed,
}

/// Relies on tokio::sync::mpsc::unbounded_channel: creates a linked
/// producer/consumer pair over an initially empty buffer.
#[verifier::external_body]
pub(crate) fn channel_pair<T>() -> (
    tokio::sync::mpsc::UnboundedSender<T>,
    tokio::sync::mpsc::UnboundedReceiver<T>,
) {
    tokio::sync::mpsc::unbounded_channel()
}

/// Relies on tokio::sync::mpsc::UnboundedSender::send: appends the value to
/// the channel's buffer without blocking, or — if and only if the consumer
/// end has been dropped or closed — hands the value back unchanged.
#[verifier::external_body]
pub(crate) fn channel_send<T>(
    tx: &tokio::sync::mpsc::UnboundedSender<T>,
    value: T,
) -> (r: Result<(), T>)
    ensures
        r matches Err(v) ==> v == value,
{
    match tx.send(value) {
        Ok(()) => Ok(()),
        Err(e) => Err(e.0),
    }
}

/// Relies on tokio::sync::mpsc::UnboundedReceiver::try_recv: removes and
/// returns the oldest buffered value without blocking; reports `Empty` when
/// the buffer is empty but producers remain, and `Closed` only once no more
/// values are, and never will be, available.
#[verifier::external_body]
pub(crate) fn channel_try_recv<T>(
    rx: &mut tokio::sync::mpsc::UnboundedReceiver<T>,
) -> ChannelPoll<T> {
    match rx.try_recv() {
        Ok(v) => ChannelPoll::Item(v),
        Err(tokio::sync::mpsc::error::TryRecvError::Empty) => ChannelPoll::Empty,
        Err(tokio::sync::mpsc::error::TryRecvError::Disconnected) => ChannelPoll::Closed,
    }
}

/// Relies on tokio::sync::mpsc::UnboundedSender::clone: the clone feeds the
/// same buffer; any number of producers may push concurrently.
#[verifier::external_body]
pub(crate) fn channel_clone_tx<T>(
    tx: &tokio::sync::mpsc::UnboundedSender<T>,
) -> tokio::sync::mpsc::UnboundedSender<T> {
    tx.clone()
}

} // verus!
