//! The main-thread queue, the per-tick pump, and request/response round
//! trips, including orphaned deliveries after a task is gone.

use tick_bridge::slot::deliver;
use tick_bridge::slot::poll_response;
use tick_bridge::slot::response_slot;
use tick_bridge::BridgeError;
use tick_bridge::BridgeHandle;
use tick_bridge::ChannelPoll;
use tick_bridge::MainThreadQueue;

type Callback = Box<dyn FnOnce(u64) -> u64 + Send>;

#[test]
fn pump_drains_requests_in_fifo_order() {
    let mut handle: BridgeHandle<u32> = BridgeHandle::new();
    let ctx = handle.task_context();
    ctx.submit_main_thread(10).unwrap();
    ctx.submit_main_thread(20).unwrap();
    ctx.submit_main_thread(30).unwrap();

    let mut out: Vec<u32> = Vec::new();
    let tick = handle.tick_pump(&mut out).unwrap();
    assert_eq!(tick, 1);
    assert_eq!(out, vec![10, 20, 30]);

    // Nothing left: the next pump advances the tick and drains nothing.
    let tick2 = handle.tick_pump(&mut out).unwrap();
    assert_eq!(tick2, 2);
    assert_eq!(out, vec![10, 20, 30]);
}

#[test]
fn clones_share_one_queue() {
    let mut handle: BridgeHandle<u32> = BridgeHandle::new();
    let ctx = handle.task_context();
    let ctx2 = ctx.clone();
    ctx.submit_main_thread(1).unwrap();
    ctx2.submit_main_thread(2).unwrap();
    let mut out: Vec<u32> = Vec::new();
    handle.tick_pump(&mut out).unwrap();
    assert_eq!(out, vec![1, 2]);
}

#[test]
fn split_pump_session_guard_fails_loudly() {
    let mut handle: BridgeHandle<u32> = BridgeHandle::new();
    let mut out: Vec<u32> = Vec::new();

    assert_eq!(handle.pump_finish(&mut out), Err(BridgeError::InvariantViolation));
    assert_eq!(handle.pump_begin(), Ok(1));
    assert_eq!(handle.pump_begin(), Err(BridgeError::InvariantViolation));
    assert_eq!(handle.pump_finish(&mut out), Ok(0));
    assert_eq!(handle.pump_finish(&mut out), Err(BridgeError::InvariantViolation));
    // A full pump works again once the session is closed.
    assert_eq!(handle.tick_pump(&mut out), Ok(2));
}

#[test]
fn enqueue_after_teardown_fails_with_world_unavailable() {
    let handle: BridgeHandle<u32> = BridgeHandle::new();
    let ctx = handle.task_context();
    drop(handle);
    assert_eq!(ctx.submit_main_thread(5), Err(BridgeError::WorldUnavailable));
}

#[test]
fn queue_try_next_reports_item_then_empty() {
    let mut queue: MainThreadQueue<u8> = MainThreadQueue::new();
    queue.enqueue(9).unwrap();
    assert!(matches!(queue.try_next(), ChannelPoll::Item(9)));
    assert!(matches!(queue.try_next(), ChannelPoll::Empty));
}

#[test]
fn response_round_trip_delivers_exact_value() {
    let (slot_tx, mut slot_rx) = response_slot();
    assert_eq!(poll_response(&mut slot_rx), Ok(None));
    assert_eq!(deliver(slot_tx, "hello".to_string()), None);
    assert_eq!(poll_response(&mut slot_rx), Ok(Some("hello".to_string())));
}

#[test]
fn unfulfilled_slot_reports_response_lost() {
    let (slot_tx, mut slot_rx) = response_slot::<u64>();
    // The callback never delivered — e.g. it panicked — and its end of the
    // slot is gone: the waiting task gets a typed failure, not an abort.
    drop(slot_tx);
    assert_eq!(poll_response(&mut slot_rx), Err(BridgeError::ResponseLost));
}

#[test]
fn orphaned_delivery_returns_value_without_panicking() {
    let (slot_tx, slot_rx) = response_slot::<u64>();
    // The requesting task dropped its handle before the pump drained the
    // request; the callback still runs and its delivery is orphaned.
    drop(slot_rx);
    assert_eq!(deliver(slot_tx, 42), Some(42));
}

#[test]
fn callback_observes_post_advance_tick() {
    // Task A enqueues a callback at tick 5; the pump's next run first
    // advances to tick 6, then drains: A receives 6, not 5.
    let mut handle: BridgeHandle<Callback> = BridgeHandle::new();
    let mut scratch: Vec<Callback> = Vec::new();
    for _ in 0..5 {
        handle.tick_pump(&mut scratch).unwrap();
    }
    assert_eq!(handle.current_tick(), 5);

    let ctx = handle.task_context();
    let (slot_tx, mut slot_rx) = response_slot();
    ctx.submit_main_thread(Box::new(move |tick| {
        deliver(slot_tx, tick);
        tick
    }))
    .unwrap();

    let mut out: Vec<Callback> = Vec::new();
    let tick = handle.tick_pump(&mut out).unwrap();
    assert_eq!(tick, 6);
    assert_eq!(out.len(), 1);
    for request in out {
        request(tick);
    }
    assert_eq!(poll_response(&mut slot_rx), Ok(Some(6)));
}

#[test]
fn dropped_task_request_still_executes_on_next_pump() {
    // Cancelling a task does not retract an already-enqueued request: the
    // callback still runs (orphaned), and the dropped task observes
    // nothing.
    let mut handle: BridgeHandle<Callback> = BridgeHandle::new();
    let ctx = handle.task_context();
    let (slot_tx, slot_rx) = response_slot::<u64>();
    ctx.submit_main_thread(Box::new(move |tick| {
        let doubled = tick * 2;
        deliver(slot_tx, doubled);
        doubled
    }))
    .unwrap();
    // The task is gone before the drain.
    drop(slot_rx);
    drop(ctx);

    let mut out: Vec<Callback> = Vec::new();
    let tick = handle.tick_pump(&mut out).unwrap();
    assert_eq!(out.len(), 1);
    let mut executed = Vec::new();
    for request in out {
        executed.push(request(tick));
    }
    // The callback executed with the post-advance tick; its delivery was
    // orphaned, not a panic.
    assert_eq!(executed, vec![2]);
}
