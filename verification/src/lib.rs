//! Offloads structured log-record processing onto a dedicated worker, behind a
//! bounded, non-blocking hand-off queue.
//!
//! The crate is organised around four pieces:
//!
//! * [`ser::ToSendSerializer`] materializes the key-value pairs of a transient
//!   record into fully owned entries that are safe to hand to another thread.
//! * [`channel::AsyncCore`] owns the bounded queue and the worker: records are
//!   enqueued without blocking, the worker replays them into a [`channel::Drain`]
//!   strictly in send order, and disposal drains everything still queued before
//!   it returns.
//! * [`facade::Async`] adds the overflow policy on top of the core: a full
//!   queue never reaches the caller; dropped records are counted and later
//!   reported through a synthetic notice record.
//! * [`laws`] states and proves the ordering and overflow guarantees of the
//!   queue discipline.

use vstd::prelude::*;

pub mod channel;
pub mod facade;
pub mod laws;
pub mod record;
pub mod ser;

verus! {

/// Errors reported by the offload pipeline.
#[derive(Debug)]
pub enum AsyncError {
    /// Could not hand the record to the worker because the queue is full.
    Full,
    /// Fatal problem: the synchronization state guarding the channel is
    /// corrupted, or the worker terminated abnormally. The pipeline is no
    /// longer usable. The payload describes the failure.
    Fatal(String),
}

/// Result alias used throughout the pipeline.
pub type AsyncResult<T> = std::result::Result<T, AsyncError>;

} // verus!
