//! The reader stage's decisions: for each read from the input source, what
//! is sent on the two outbound channels, and when the stage stops.
//!
//! The caller owns the input source and hands each read result over as the
//! number of bytes now filling the front of the buffer; a count of zero
//! stands for end-of-input and for a failed read alike.

use crossbeam::channel::Sender;
use vstd::prelude::*;
use crate::channel::{send_chunk, send_count};

verus! {

/// Copies the first `num_read` bytes of the buffer into an owned chunk, the
/// payload that travels to the writer stage.
pub fn make_chunk(buffer: &Vec<u8>, num_read: usize) -> (c: Vec<u8>)
    requires
        num_read <= buffer@.len(),
    ensures
        c@ == buffer@.subrange(0, num_read as int),
{
    let mut c: Vec<u8> = Vec::new();
    let mut i: usize = 0;
    while i < num_read
        invariant
            i <= num_read <= buffer@.len(),
            c@ == buffer@.subrange(0, i as int),
        decreases num_read - i,
    {
        c.push(buffer[i]);
        proof {
            assert(c@ =~= buffer@.subrange(0, i + 1));
        }
        i = i + 1;
    }
    c
}

/// Announces termination to both downstream stages: the zero count and the
/// empty chunk are the sentinels on which each stage shuts down, so both
/// stages observe exactly one termination signal on every exit path.
pub fn send_done(stats_tx: &Sender<usize>, write_tx: &Sender<Vec<u8>>) {
    let _ = send_count(stats_tx, 0);
    let _ = send_chunk(write_tx, Vec::new());
}

/// One step of the reader stage. For a read of `num_read > 0` bytes, sends
/// the count to the statistics stage (best effort: a gone statistics stage is
/// not fatal) and the copied bytes to the writer stage; a writer that has
/// gone away ends the stage as a normal shutdown. For `num_read == 0` -
/// end-of-input or a failed read - the stage ends. On every ending path the
/// termination sentinels go out before the step reports that it is done.
/// Returns whether the stage should keep reading.
pub fn read_step(
    stats_tx: &Sender<usize>,
    write_tx: &Sender<Vec<u8>>,
    buffer: &Vec<u8>,
    num_read: usize,
) -> (cont: bool)
    requires
        num_read <= buffer@.len(),
    ensures
        cont ==> num_read > 0,
{
    if num_read == 0 {
        send_done(stats_tx, write_tx);
        return false;
    }
    let _ = send_count(stats_tx, num_read);
    let chunk = make_chunk(buffer, num_read);
    if send_chunk(write_tx, chunk) {
        true
    } else {
        send_done(stats_tx, write_tx);
        false
    }
}

} // verus!
