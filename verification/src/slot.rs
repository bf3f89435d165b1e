//! One-shot response slots: each main-thread request carries a fresh
//! single-use slot into which the tick pump delivers the callback's return
//! value, and on which exactly one task waits. Delivery must tolerate the
//! waiting end being gone — a task whose handle was dropped simply never
//! observes a result — and the waiter must be told, as a typed failure and
//! never a process abort, when the slot was dropped unfulfilled.

use vstd::prelude::*;

use crate::errors::BridgeError;

verus! {

#[verifier::external_type_specification]
#[verifier::external_body]
#[verifier::reject_recursive_types(T)]
pub struct ExOneshotSender<T>(tokio::sync::oneshot::Sender<T>);

#[verifier::external_type_specification]
#[verifier::external_body]
#[verifier::reject_recursive_types(T)]
pub struct ExOneshotReceiver<T>(tokio::sync::oneshot::Receiver<T>);

#[verifier::external_type_specification]
#[verifier::external_body]
pub struct ExOneshotRecvError(tokio::sync::oneshot::error::RecvError);

/// What a non-blocking check of a response slot reports.
pub enum SlotPoll<T> {
    /// The delivered value.
    Ready(T),
    /// Nothing delivered yet; the producing end is still alive.
    Pending,
    /// The producing end is gone and nothing was delivered, nor ever will
    /// be.
    Lost,
}

/// Relies on tokio::sync::oneshot::channel: creates a fresh single-use
/// slot, as a linked producer/consumer pair.
#[verifier::external_body]
fn oneshot_pair<T>() -> (tokio::sync::oneshot::Sender<T>, tokio::sync::oneshot::Receiver<T>) {
    tokio::sync::oneshot::channel()
}

/// Relies on tokio::sync::oneshot::Sender::send: delivers the value to the
/// waiting end, consuming the slot, or — if and only if the waiting end has
/// been dropped — hands the value back unchanged. Never blocks, never
/// panics.
#[verifier::external_body]
fn oneshot_send<T>(tx: tokio::sync::oneshot::Sender<T>, value: T) -> (r: Result<(), T>)
    ensures
        r matches Err(v) ==> v == value,
{
    tx.send(value)
}

/// Relies on tokio::sync::oneshot::Receiver::try_recv: takes the delivered
/// value if one is there, reports `Pending` while the producing end is
/// still alive, and `Lost` once it is gone without having delivered.
#[verifier::external_body]
fn oneshot_try_recv<T>(rx: &mut tokio::sync::oneshot::Receiver<T>) -> SlotPoll<T> {
    match rx.try_recv() {
        Ok(v) => SlotPoll::Ready(v),
        Err(tokio::sync::oneshot::error::TryRecvError::Empty) => SlotPoll::Pending,
        Err(tokio::sync::oneshot::error::TryRecvError::Closed) => SlotPoll::Lost,
    }
}

/// A fresh single-use response slot. The sender half travels with the
/// request to the tick pump; the receiver half stays with the requesting
/// task.
pub fn response_slot<T>() -> (tokio::sync::oneshot::Sender<T>, tokio::sync::oneshot::Receiver<T>) {
    oneshot_pair()
}

/// Delivers a callback's return value into its response slot. `None` means
/// the value now sits in the slot for the waiting task; `Some` hands the
/// value back unchanged because the waiting end is gone — the orphaned
/// delivery of a cancelled task, tolerated without panicking the pump
/// thread.
pub fn deliver<T>(slot: tokio::sync::oneshot::Sender<T>, value: T) -> (r: Option<T>)
    ensures
        r matches Some(v) ==> v == value,
{
    match oneshot_send(slot, value) {
        Ok(()) => None,
        Err(v) => Some(v),
    }
}

/// A non-suspending check of a response slot. `Ok(Some(v))` carries the
/// delivered value, `Ok(None)` means no value has been delivered yet, and
/// `Err(ResponseLost)` — the only error — reports that the slot was
/// dropped without being fulfilled, e.g. because the callback panicked.
pub fn poll_response<T>(rx: &mut tokio::sync::oneshot::Receiver<T>) -> (r: Result<
    Option<T>,
    BridgeError,
>)
    ensures
        r matches Err(e) ==> e == BridgeError::ResponseLost,
{
    match oneshot_try_recv(rx) {
        SlotPoll::Ready(v) => Ok(Some(v)),
        SlotPoll::Pending => Ok(None),
        SlotPoll::Lost => Err(BridgeError::ResponseLost),
    }
}

} // verus!
