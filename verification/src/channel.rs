//! The two message channels that join the pipeline's stages, relying on
//! crossbeam's multi-producer multi-consumer channels.
//!
//! Byte counts travel on an unbounded channel so that the reader never blocks
//! on slow statistics rendering; chunk payloads travel on a bounded channel,
//! whose capacity is the pipeline's sole backpressure mechanism.

use crossbeam::channel::{Receiver, Sender};
use vstd::prelude::*;
use crate::CHUNK_QUEUE_BOUND;

verus! {

#[verifier::external_type_specification]
#[verifier::external_body]
#[verifier::reject_recursive_types(T)]
pub struct ExSender<T>(Sender<T>);

#[verifier::external_type_specification]
#[verifier::external_body]
#[verifier::reject_recursive_types(T)]
pub struct ExReceiver<T>(Receiver<T>);

/// The capacity a bounded chunk channel was created with: at no moment does
/// the channel buffer more chunks than this.
pub uninterp spec fn chunk_bound(rx: Receiver<Vec<u8>>) -> nat;

/// Relies on crossbeam's `unbounded`: a connected sender/receiver pair whose
/// sends never block.
#[verifier::external_body]
fn stats_channel() -> (r: (Sender<usize>, Receiver<usize>)) {
    crossbeam::channel::unbounded()
}

/// Relies on crossbeam's `bounded`: a connected sender/receiver pair that
/// buffers at most `bound` messages, blocking senders once it is full. The
/// size cap keeps clear of the capacities on which `bounded` panics.
#[verifier::external_body]
fn chunk_channel(bound: usize) -> (r: (Sender<Vec<u8>>, Receiver<Vec<u8>>))
    requires
        1 <= bound <= 65536,
    ensures
        chunk_bound(r.1) == bound,
{
    crossbeam::channel::bounded(bound)
}

/// Relies on crossbeam's `Sender::send`: delivers `n` to the channel unless
/// every receiver is gone. Whether it succeeds depends on the other
/// endpoint, so nothing is promised of the result.
#[verifier::external_body]
pub(crate) fn send_count(tx: &Sender<usize>, n: usize) -> (ok: bool) {
    tx.send(n).is_ok()
}

/// Relies on crossbeam's `Sender::send`: delivers the chunk to the channel
/// unless every receiver is gone, blocking while a bounded channel is full.
/// Whether it succeeds depends on the other endpoint, so nothing is promised
/// of the result.
#[verifier::external_body]
pub(crate) fn send_chunk(tx: &Sender<Vec<u8>>, chunk: Vec<u8>) -> (ok: bool) {
    tx.send(chunk).is_ok()
}

/// Creates the two channels of one pipeline run: an unbounded one for byte
/// counts and a bounded one for chunk payloads, the latter holding at most
/// `CHUNK_QUEUE_BOUND` chunks in flight.
pub fn pipeline_channels() -> (r: (
    (Sender<usize>, Receiver<usize>),
    (Sender<Vec<u8>>, Receiver<Vec<u8>>),
))
    ensures
        chunk_bound(r.1.1) == CHUNK_QUEUE_BOUND,
{
    (stats_channel(), chunk_channel(CHUNK_QUEUE_BOUND))
}

} // verus!
