//! A notification receiver for a host that reports chain events through
//! synchronous callbacks.  The heart of the library is an asynchronous
//! offload pattern: callbacks enqueue work onto a bounded FIFO channel, a
//! single background worker drains it, and a monotonic shutdown flag plus
//! channel disconnection end the worker cooperatively.

pub mod channel;
pub mod flag;
pub mod plugin;
pub mod worker;
