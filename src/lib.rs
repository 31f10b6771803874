//! A client for the Fluentd forward protocol with acknowledged delivery.
//!
//! - `backoff`: the wait between retries, `initial * 1.5^(i - 1)` truncated
//!   and capped, computed exactly in integers.
//! - `worker`: the delivery worker's decisions: what to do with a queued
//!   message, when to retry, when a read or an ack ends a cycle, when a
//!   connection is due for renewal.
//! - `codec`: the wire form of a record and its chunk identifier.
//! - `client`: the configuration and the sending side of the queue.

pub mod backoff;
pub mod client;
pub mod codec;
pub mod worker;
