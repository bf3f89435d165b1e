//! Coordination primitives for a world that advances in discrete ticks:
//! a monotonically advancing tick clock with coalescing change notification,
//! a many-producer single-consumer queue of deferred main-thread work,
//! per-type channel-to-event bridges, and the per-tick pump that drives them.

pub mod channel;
pub mod context;
pub mod errors;
pub mod events;
pub mod pump;
pub mod queue;
pub mod registry;
pub mod sleep;
pub mod slot;
pub mod tick;

pub use channel::ChannelPoll;
pub use context::TaskContext;
pub use errors::BridgeError;
pub use events::ChannelEventBridge;
pub use events::EventStore;
pub use pump::BridgeHandle;
pub use queue::MainThreadQueue;
pub use registry::BridgeRegistry;
pub use sleep::SleepWait;
pub use slot::SlotPoll;
pub use tick::SignalPoll;
pub use tick::TickClock;
