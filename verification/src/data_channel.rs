//! Data-channel drain bookkeeping: a session accepts exactly one
//! inbound connection and reads it to end-of-stream, accumulating each
//! chunk in arrival order. The sockets live outside the library; the
//! accumulation step and its correctness under arbitrary fragmentation
//! are verified here.

use vstd::prelude::*;
use vstd::slice::slice_subrange;

verus! {

/// Appends the first `bytes` bytes of `buffer` — one read's worth of
/// data — to the accumulated result.
pub fn accumulate_chunk(result: &mut Vec<u8>, buffer: &[u8], bytes: usize)
    requires
        bytes <= buffer@.len(),
    ensures
        final(result)@ == old(result)@ + buffer@.subrange(0, bytes as int),
{
    let chunk = slice_subrange(buffer, 0, bytes);
    result.extend_from_slice(chunk);
}

/// The state of a drain loop that started from `acc` and then appended
/// the given chunks in order.
pub open spec fn fold_chunks(acc: Seq<u8>, chunks: Seq<Seq<u8>>) -> Seq<u8>
    decreases chunks.len(),
{
    if chunks.len() == 0 {
        acc
    } else {
        fold_chunks(acc + chunks.first(), chunks.drop_first())
    }
}

/// Appending chunks one read at a time onto an accumulator yields the
/// accumulator followed by all the chunks in order.
pub proof fn lemma_fold_chunks_concat(acc: Seq<u8>, chunks: Seq<Seq<u8>>)
    ensures
        fold_chunks(acc, chunks) == acc + chunks.flatten(),
    decreases chunks.len(),
{
    if chunks.len() == 0 {
        assert(acc + chunks.flatten() =~= acc);
    } else {
        lemma_fold_chunks_concat(acc + chunks.first(), chunks.drop_first());
        assert((acc + chunks.first()) + chunks.drop_first().flatten() =~= acc + (chunks.first()
            + chunks.drop_first().flatten()));
    }
}

/// Drain-loop correctness under fragmented writes: a loop that starts
/// with an empty buffer and appends each received chunk in arrival
/// order ends with exactly the concatenation of the chunks — the bytes
/// the peer wrote before closing its side, however the stream split
/// them into reads.
pub proof fn lemma_drain_collects_all(chunks: Seq<Seq<u8>>)
    ensures
        fold_chunks(Seq::empty(), chunks) == chunks.flatten(),
{
    lemma_fold_chunks_concat(Seq::empty(), chunks);
    assert(Seq::empty() + chunks.flatten() =~= chunks.flatten());
}

} // verus!
