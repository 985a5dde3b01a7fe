//! The core of a keeper that watches the event queues of a market group and
//! sends a transaction that drains a queue whenever it holds entries.
//!
//! A write to a watched account goes through the router to the crank
//! handler, which emits a batch of operations where the queue is not empty.
//! The dispatcher puts the priority fee in front of the batch, signs the
//! result with the process identity and writes a send record. The library
//! decides and computes; waiting for events, the channel between handler and
//! dispatcher, the shared state and the transport belong to its caller.

pub mod config;
pub mod dispatcher;
pub mod handler;
pub mod identity;
pub mod ids;
pub mod keeper;
pub mod operation;
pub mod router;
pub mod signing;
pub mod slot;
