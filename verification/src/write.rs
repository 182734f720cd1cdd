//! The writer stage's decisions: what happens to each received chunk, how a
//! failed write is classified, and the round-trip law that the chunk protocol
//! carries every byte read to the output in order.

use vstd::prelude::*;

verus! {

/// What the writer stage does with one received chunk.
pub enum ChunkAction {
    /// Write these bytes to the sink.
    Write(Vec<u8>),
    /// The empty sentinel arrived: the stage is finished, successfully.
    Done,
}

/// Decides the fate of one received chunk: an empty chunk is the termination
/// sentinel and ends the stage cleanly; any other chunk goes to the sink
/// unchanged.
pub fn on_chunk(chunk: Vec<u8>) -> (a: ChunkAction)
    ensures
        chunk@.len() == 0 ==> a is Done,
        chunk@.len() > 0 ==> (a matches ChunkAction::Write(c) && c@ == chunk@),
{
    if chunk.len() == 0 {
        ChunkAction::Done
    } else {
        ChunkAction::Write(chunk)
    }
}

/// The two classes a failed sink write falls into, read off the error the
/// sink reported.
#[derive(Clone, Copy, Debug, PartialEq, Eq, Structural)]
pub enum WriteErrorKind {
    /// The downstream consumer closed its end of the pipe.
    BrokenPipe,
    /// Any other write failure.
    Other,
}

/// The writer stage's verdict after one write attempt.
#[derive(Clone, Copy, Debug, PartialEq, Eq, Structural)]
pub enum WriteVerdict {
    /// The write succeeded: keep consuming chunks.
    Continue,
    /// The downstream consumer is gone: the expected outcome when a consuming
    /// process exits early, so the stage ends successfully, not as an error.
    Done,
    /// A fatal write failure, surfaced to the supervisor.
    Fatal,
}

/// Classifies the outcome of one write attempt (`None` for success): a
/// broken pipe terminates the stage successfully, every other failure is
/// fatal.
pub fn after_write(result: Option<WriteErrorKind>) -> (v: WriteVerdict)
    ensures
        result is None ==> v == WriteVerdict::Continue,
        result == Some(WriteErrorKind::BrokenPipe) ==> v == WriteVerdict::Done,
        result == Some(WriteErrorKind::Other) ==> v == WriteVerdict::Fatal,
{
    match result {
        None => WriteVerdict::Continue,
        Some(WriteErrorKind::BrokenPipe) => WriteVerdict::Done,
        Some(WriteErrorKind::Other) => WriteVerdict::Fatal,
    }
}

/// All bytes of a sequence of chunks, in order: what the reader took from
/// the input source.
pub open spec fn concat_chunks(cs: Seq<Seq<u8>>) -> Seq<u8>
    decreases cs.len(),
{
    if cs.len() == 0 {
        Seq::empty()
    } else {
        cs[0] + concat_chunks(cs.drop_first())
    }
}

/// The bytes the writer stage puts on the sink when fed a sequence of
/// chunks: every chunk in order, up to but not including the first empty
/// chunk, which is the termination sentinel.
pub open spec fn written_bytes(cs: Seq<Seq<u8>>) -> Seq<u8>
    decreases cs.len(),
{
    if cs.len() == 0 {
        Seq::empty()
    } else if cs[0].len() == 0 {
        Seq::empty()
    } else {
        cs[0] + written_bytes(cs.drop_first())
    }
}

/// Termination of the writer's consumption: once the sentinel is in the
/// chunk sequence, nothing sent after it changes what reaches the sink.
pub proof fn lemma_sentinel_ends_writer(cs: Seq<Seq<u8>>, extra: Seq<Seq<u8>>)
    ensures
        written_bytes(cs.push(Seq::empty()) + extra) == written_bytes(cs.push(Seq::empty())),
    decreases cs.len(),
{
    let with_extra = cs.push(Seq::empty()) + extra;
    if cs.len() == 0 {
        assert(with_extra[0].len() == 0);
        assert(written_bytes(with_extra) =~= written_bytes(cs.push(Seq::empty())));
    } else {
        lemma_sentinel_ends_writer(cs.drop_first(), extra);
        assert(with_extra.drop_first() =~= cs.drop_first().push(Seq::empty()) + extra);
        assert(cs.push(Seq::empty()).drop_first() =~= cs.drop_first().push(Seq::empty()));
        assert(written_bytes(with_extra) =~= written_bytes(cs.push(Seq::empty())));
    }
}

/// Round trip: for any sequence of non-empty reads, the chunks the reader
/// emits - each read's bytes, then the empty sentinel - make the writer put
/// exactly the bytes read, in order, on the sink. Holds for a single chunk
/// and for any number of them.
pub proof fn lemma_round_trip(reads: Seq<Seq<u8>>)
    requires
        forall|i: int| 0 <= i < reads.len() ==> #[trigger] reads[i].len() > 0,
    ensures
        written_bytes(reads.push(Seq::empty())) == concat_chunks(reads),
    decreases reads.len(),
{
    let cs = reads.push(Seq::empty());
    if reads.len() == 0 {
        assert(cs[0].len() == 0);
        assert(written_bytes(cs) =~= concat_chunks(reads));
    } else {
        lemma_round_trip(reads.drop_first());
        assert(cs.drop_first() =~= reads.drop_first().push(Seq::empty()));
        assert(written_bytes(cs) =~= concat_chunks(reads));
    }
}

} // verus!
