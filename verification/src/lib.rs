//! A transparent pipeline stage: relays bytes from an input source to an
//! output sink while rendering live throughput statistics on the error
//! stream.
//!
//! The core is a three-stage pipeline (reader, statistics, writer) joined by
//! two channels: an unbounded one for byte counts and a bounded one for the
//! chunk payloads, whose bound is the sole backpressure mechanism.

use vstd::prelude::*;

pub mod args;
pub mod channel;
pub mod read;
pub mod stats;
pub mod write;

verus! {

/// Largest number of bytes one read may produce, and so the largest chunk
/// that travels from the reader to the writer.
pub const CHUNK_SIZE: usize = 16 * 1024;

/// Capacity of the bounded chunk channel: at most this many chunks are ever
/// in flight between the reader and the writer.
pub const CHUNK_QUEUE_BOUND: usize = 1024;

} // verus!
