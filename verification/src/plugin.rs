//! The notification façade and lifecycle controller: the entry points the
//! host invokes for each observed event, and the construction / teardown
//! protocol around the background worker.
//!
//! Every callback must return quickly, so the only entry point that does
//! real work — the account update — enqueues a payload onto the bounded
//! work channel instead of processing inline.  All entry points return
//! success to the host even in degraded states: losing one diagnostic
//! event is better than stalling or crashing the host's critical path.

use vstd::prelude::*;
use crate::channel::open_channel;
use crate::channel::send_work;
use crate::flag::ShutdownFlag;

verus! {

/// How many payloads the bounded work channel holds before an enqueue
/// blocks the producing host thread.
pub const CHANNEL_CAPACITY: usize = 40960;

/// How long, in milliseconds, the worker waits on the channel during one
/// turn; the bound on its shutdown latency once the flag is set.
pub const WORKER_WAIT_MILLIS: u64 = 500;

/// The status a slot is reported with.  The host's set of variants is
/// closed and known, so it is mirrored here as plain values.
#[derive(Clone, Copy, Debug, PartialEq, Eq, Structural)]
pub enum SlotStatus {
    /// Processed on the heaviest fork, not yet confirmed or finalized.
    Processed,
    /// Reached max vote lockout.
    Rooted,
    /// Voted on by a supermajority of the cluster.
    Confirmed,
}

/// A structured failure a callback may report to the host.  The verified
/// entry points never produce one: every degraded state is absorbed so the
/// host's critical path is never failed for a lost diagnostic event.
#[derive(Clone, Copy, Debug, PartialEq, Eq, Structural)]
pub enum PluginError {
    /// The background worker is gone, so enqueued work can no longer be
    /// processed.
    WorkerGone,
}

/// The plugin: a producer endpoint for the work channel, the shared
/// shutdown flag, and a ghost record of whether teardown has begun.  The
/// worker thread itself is owned by the embedding, which binds
/// [`crate::worker::run_worker`] to the consumer endpoint this plugin's
/// constructor hands out.
pub struct GeyserPluginSample {
    exit: ShutdownFlag,
    sender: Option<crossbeam_channel::Sender<i32>>,
    shutdown_requested: Ghost<bool>,
}

impl GeyserPluginSample {
    /// Whether teardown has begun.  Monotonic: once true, no entry point
    /// ever makes it false again.
    pub closed spec fn shutdown_requested(&self) -> bool {
        self.shutdown_requested@
    }

    /// Whether the plugin still holds its producer endpoint.
    pub closed spec fn has_producer(&self) -> bool {
        self.sender is Some
    }

    /// Construct the plugin: open the bounded work channel and initialize
    /// the shutdown flag to running.  Returns, beside the plugin, the
    /// second flag handle and the consumer endpoint that the embedding
    /// hands to the spawned worker.
    pub fn with_capacity(capacity: usize) -> (r: (
        GeyserPluginSample,
        ShutdownFlag,
        crossbeam_channel::Receiver<i32>,
    ))
        requires
            capacity <= usize::MAX / 4,
        ensures
            !r.0.shutdown_requested(),
            r.0.has_producer(),
    {
        let (sender, receiver) = open_channel(capacity);
        let exit = ShutdownFlag::new();
        let worker_exit = exit.clone();
        let plugin = GeyserPluginSample {
            exit,
            sender: Some(sender),
            shutdown_requested: Ghost(false),
        };
        (plugin, worker_exit, receiver)
    }

    /// Construct the plugin with the reference capacity.
    pub fn new() -> (r: (
        GeyserPluginSample,
        ShutdownFlag,
        crossbeam_channel::Receiver<i32>,
    ))
        ensures
            !r.0.shutdown_requested(),
            r.0.has_producer(),
    {
        Self::with_capacity(CHANNEL_CAPACITY)
    }

    /// The name under which the host knows this plugin.
    pub fn name(&self) -> (r: &'static str)
        ensures
            r@ == "GeyserPluginSample"@,
    {
        "GeyserPluginSample"
    }

    /// The load entry point.  Initialization that could fail or could not
    /// be reversed at unload is deliberately absent, so loading always
    /// succeeds and changes nothing.
    pub fn on_load(&mut self, _config_file: &str) -> (r: Result<(), PluginError>)
        ensures
            r is Ok,
            *final(self) == *old(self),
    {
        Ok(())
    }

    /// The unload entry point: begin teardown by setting the shutdown
    /// flag.  Safe to invoke again after the worker has already exited —
    /// the flag is merely stored once more.  The embedding joins the
    /// worker thread after this returns.
    pub fn on_unload(&mut self)
        ensures
            final(self).shutdown_requested(),
            final(self).has_producer() == old(self).has_producer(),
    {
        self.exit.set();
        self.shutdown_requested = Ghost(true);
    }

    /// An account was updated: forward the slot number to the worker over
    /// the bounded channel rather than processing on the host's thread.
    /// An enqueue that fails because the worker is gone costs one
    /// diagnostic event, never the callback's success.
    pub fn update_account(&self, slot: u64, _is_startup: bool) -> (r: Result<(), PluginError>)
        ensures
            r is Ok,
    {
        match &self.sender {
            Some(sender) => {
                let work: i32 = #[verifier::truncate] (slot as i32);
                let _outcome = send_work(sender, work);
                Ok(())
            },
            None => Ok(()),
        }
    }

    /// A slot's status changed: a synchronous, stateless notification.
    pub fn update_slot_status(
        &self,
        _slot: u64,
        _parent: Option<u64>,
        _status: SlotStatus,
    ) -> (r: Result<(), PluginError>)
        ensures
            r is Ok,
    {
        Ok(())
    }

    /// Block metadata arrived: a synchronous, stateless notification.
    pub fn notify_block_metadata(&self) -> (r: Result<(), PluginError>)
        ensures
            r is Ok,
    {
        Ok(())
    }

    /// An entry was executed: a synchronous, stateless notification.
    pub fn notify_entry(&self) -> (r: Result<(), PluginError>)
        ensures
            r is Ok,
    {
        Ok(())
    }

    /// A transaction was processed: a synchronous, stateless notification.
    pub fn notify_transaction(&self, _slot: u64) -> (r: Result<(), PluginError>)
        ensures
            r is Ok,
    {
        Ok(())
    }

    /// The plugin asks the host for account data; with this false the host
    /// would not deliver account updates at all.
    pub fn account_data_notifications_enabled(&self) -> (r: bool)
        ensures
            r == true,
    {
        true
    }

    /// The plugin asks the host for transaction data.
    pub fn transaction_notifications_enabled(&self) -> (r: bool)
        ensures
            r == true,
    {
        true
    }

    /// The plugin asks the host for ledger-entry data.
    pub fn entry_notifications_enabled(&self) -> (r: bool)
        ensures
            r == true,
    {
        true
    }
}

} // verus!
