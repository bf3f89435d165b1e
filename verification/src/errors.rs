use vstd::prelude::*;

verus! {

/// Failures surfaced by the bridge primitives.
///
/// Setup-time misuse (`DuplicateBridge`) is fatal to setup. Teardown
/// conditions (`WorldUnavailable`, `ClockClosed`, `ResponseLost`) propagate
/// as typed failures to the awaiting task, which decides whether to retry,
/// abandon, or propagate further. `InvariantViolation` reports a violated
/// single-consumer protocol and is a programmer error, not a transient
/// condition.
#[derive(Clone, Copy, Debug, PartialEq, Eq, Structural)]
pub enum BridgeError {
    /// A bridge for this event type is already registered on the world.
    DuplicateBridge,
    /// The world has been torn down; no more main-thread work is accepted.
    WorldUnavailable,
    /// The tick clock was closed while a task was waiting on it.
    ClockClosed,
    /// A response slot was dropped without being fulfilled.
    ResponseLost,
    /// A pump session was begun while another was still open.
    InvariantViolation,
}

} // verus!
