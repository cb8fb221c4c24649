//! End-to-end behavior of the plugin: the façade, the bounded work channel,
//! the worker loop and the shutdown protocol, exercised with the real
//! channel and real threads.

use geyser_plugin_sample::plugin::GeyserPluginSample;
use geyser_plugin_sample::plugin::SlotStatus;
use geyser_plugin_sample::worker::run_worker;

/// The worker processes exactly the enqueued items, in enqueue order, and
/// exits on its own once every producer endpoint is dropped even though the
/// shutdown flag is never set.
#[test]
fn worker_processes_items_in_enqueue_order() {
    let (plugin, exit, receiver) = GeyserPluginSample::with_capacity(8);
    assert!(plugin.update_account(7, false).is_ok());
    assert!(plugin.update_account(8, false).is_ok());
    assert!(plugin.update_account(9, true).is_ok());
    // Dropping the plugin drops the only producer endpoint.
    drop(plugin);
    let (processed, _trace) = run_worker(&exit, &receiver, 50, 1000);
    assert_eq!(processed, vec![7, 8, 9]);
}

/// A worker that starts with the shutdown flag already set exits before
/// polling at all and processes nothing, even if items are queued.
#[test]
fn worker_exits_at_once_when_flag_already_set() {
    let (mut plugin, exit, receiver) = GeyserPluginSample::with_capacity(8);
    assert!(plugin.update_account(1, false).is_ok());
    plugin.on_unload();
    let (processed, _trace) = run_worker(&exit, &receiver, 50, 1000);
    assert_eq!(processed, Vec::<i32>::new());
}

/// An empty channel and a clear flag yield only timeouts: the worker keeps
/// waiting, processes nothing, and stops only when its turn budget runs out.
#[test]
fn worker_times_out_and_keeps_waiting() {
    let (_plugin, exit, receiver) = GeyserPluginSample::with_capacity(4);
    let (processed, _trace) = run_worker(&exit, &receiver, 5, 3);
    assert_eq!(processed, Vec::<i32>::new());
}

/// Setting the shutdown flag while the worker is blocked in its bounded
/// wait stops it within about one wait interval: the join of the worker
/// thread completes and nothing was processed.
#[test]
fn shutdown_during_wait_is_observed_and_join_succeeds() {
    let (mut plugin, exit, receiver) = GeyserPluginSample::with_capacity(4);
    crossbeam_utils::thread::scope(|s| {
        let handle = s.spawn(|_| run_worker(&exit, &receiver, 50, u64::MAX));
        plugin.on_unload();
        let (processed, _trace) = handle.join().unwrap();
        assert_eq!(processed, Vec::<i32>::new());
    })
    .unwrap();
}

/// Backpressure: with the channel at capacity 2 and items [1, 2] queued,
/// an enqueue of [3] blocks the producer; once the consumer takes item 1
/// the blocked enqueue completes, and the items come out in order
/// [1, 2, 3].
#[test]
fn full_channel_blocks_producer_until_one_item_is_consumed() {
    let (plugin, _exit, receiver) = GeyserPluginSample::with_capacity(2);
    assert!(plugin.update_account(1, false).is_ok());
    assert!(plugin.update_account(2, false).is_ok());
    let (started_tx, started_rx) = crossbeam_channel::bounded::<()>(1);
    let (done_tx, done_rx) = crossbeam_channel::bounded::<()>(1);
    crossbeam_utils::thread::scope(|s| {
        s.spawn(|_| {
            started_tx.send(()).unwrap();
            // The channel is full: this call blocks until an item leaves.
            assert!(plugin.update_account(3, false).is_ok());
            done_tx.send(()).unwrap();
        });
        started_rx.recv().unwrap();
        // The producer is still blocked: nothing arrives on `done` while
        // the channel stays full.
        assert_eq!(
            done_rx.recv_timeout(std::time::Duration::from_millis(300)),
            Err(crossbeam_channel::RecvTimeoutError::Timeout)
        );
        // Consuming one item unblocks the producer.
        assert_eq!(
            receiver.recv_timeout(std::time::Duration::from_secs(5)),
            Ok(1)
        );
        done_rx
            .recv_timeout(std::time::Duration::from_secs(5))
            .unwrap();
        assert_eq!(
            receiver.recv_timeout(std::time::Duration::from_secs(5)),
            Ok(2)
        );
        assert_eq!(
            receiver.recv_timeout(std::time::Duration::from_secs(5)),
            Ok(3)
        );
    })
    .unwrap();
}

/// Teardown is idempotent-safe: invoking it again after the worker has
/// already exited neither blocks nor panics, and a later account update on
/// a dead channel still reports success to the host.
#[test]
fn teardown_twice_after_worker_exit_is_safe() {
    let (mut plugin, exit, receiver) = GeyserPluginSample::with_capacity(4);
    crossbeam_utils::thread::scope(|s| {
        let handle = s.spawn(|_| run_worker(&exit, &receiver, 20, u64::MAX));
        plugin.on_unload();
        handle.join().unwrap();
    })
    .unwrap();
    // The worker is gone; a second teardown must return normally.
    plugin.on_unload();
    // With the consumer endpoint dropped, the enqueue fails inside, yet the
    // callback still succeeds: one lost diagnostic event must not fail the
    // host's critical path.
    drop(receiver);
    assert!(plugin.update_account(4, false).is_ok());
}

/// The stateless entry points: every callback reports success, and the
/// capability queries ask for all three event categories.
#[test]
fn facade_stubs_succeed_and_capabilities_are_enabled() {
    let (mut plugin, _exit, _receiver) = GeyserPluginSample::new();
    assert_eq!(plugin.name(), "GeyserPluginSample");
    assert!(plugin.on_load("sample_config.json").is_ok());
    assert!(plugin
        .update_slot_status(3, Some(2), SlotStatus::Processed)
        .is_ok());
    assert!(plugin
        .update_slot_status(4, None, SlotStatus::Rooted)
        .is_ok());
    assert!(plugin
        .update_slot_status(5, Some(4), SlotStatus::Confirmed)
        .is_ok());
    assert!(plugin.notify_block_metadata().is_ok());
    assert!(plugin.notify_entry().is_ok());
    assert!(plugin.notify_transaction(6).is_ok());
    assert!(plugin.account_data_notifications_enabled());
    assert!(plugin.transaction_notifications_enabled());
    assert!(plugin.entry_notifications_enabled());
}

/// A slot number wider than the payload type is truncated into the payload,
/// matching the narrowing the enqueue performs.
#[test]
fn wide_slot_numbers_are_truncated_into_payloads() {
    let (plugin, exit, receiver) = GeyserPluginSample::with_capacity(4);
    let slot: u64 = (1u64 << 32) + 11;
    assert!(plugin.update_account(slot, false).is_ok());
    drop(plugin);
    let (processed, _trace) = run_worker(&exit, &receiver, 50, 1000);
    assert_eq!(processed, vec![11]);
}
