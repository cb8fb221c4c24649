//! The process-wide shutdown signal shared by the lifecycle controller and
//! the background worker.

use vstd::prelude::*;
use std::sync::Arc;
use core::sync::atomic::AtomicBool;
use core::sync::atomic::Ordering;

verus! {

/// A shared boolean that coordinates termination: the controller sets it once
/// during teardown, the worker reads it on every turn.  The library only ever
/// stores `true`, so the signal is monotonic within one component instance.
/// Relaxed ordering suffices: the flag is a liveness signal and carries no
/// data dependency.
#[derive(Clone)]
pub struct ShutdownFlag {
    inner: Arc<AtomicBool>,
}

impl ShutdownFlag {
    /// A fresh flag in the running (unset) state.
    pub fn new() -> ShutdownFlag {
        ShutdownFlag { inner: Arc::new(AtomicBool::new(false)) }
    }

    /// Request termination.  Never unset again: the library has no way to
    /// store `false` after construction.
    pub fn set(&self) {
        self.inner.store(true, Ordering::Relaxed);
    }

    /// Whether termination has been requested.  Another thread may set the
    /// flag at any moment, so nothing is promised of the value read; the
    /// worker takes it as an input to its next decision.
    pub fn is_set(&self) -> bool {
        self.inner.load(Ordering::Relaxed)
    }
}

} // verus!
