//! The transfer queue: the bounded FIFO of byte chunks between the
//! pseudo-terminal reader and the network sender.  The reader owns the
//! producing end and the sender the consuming end; a saturated queue refuses
//! the producer's chunk instead of dropping data, which is the bridge's only
//! backpressure mechanism.

use vstd::prelude::*;
use vstd::slice::{slice_subrange, slice_to_vec};
use crate::TRANSFER_QUEUE_CAPACITY;

verus! {

/// The chunk one pseudo-terminal read produced: exactly the first `filled`
/// bytes of the read buffer, in buffer order — outbound data is chunked by
/// the read size and by nothing else.
pub fn read_chunk(buf: &[u8], filled: usize) -> (chunk: Vec<u8>)
    requires
        filled <= buf@.len(),
    ensures
        chunk@ == buf@.take(filled as int),
{
    let part = slice_subrange(buf, 0, filled);
    let chunk = slice_to_vec(part);
    proof {
        assert(buf@.subrange(0, filled as int) =~= buf@.take(filled as int));
    }
    chunk
}

/// A bounded FIFO of opaque byte chunks, single producer, single consumer.
pub struct TransferQueue {
    chunks: Vec<Vec<u8>>,
}

impl View for TransferQueue {
    type V = Seq<Seq<u8>>;

    /// The queued chunks, oldest first.
    closed spec fn view(&self) -> Seq<Seq<u8>> {
        Seq::new(self.chunks@.len(), |i: int| self.chunks@[i]@)
    }
}

/// Whether a queue holding `pending` chunks has room for one more.
pub open spec fn push_accepted(pending: Seq<Seq<u8>>) -> bool {
    pending.len() < TRANSFER_QUEUE_CAPACITY
}

/// The queue contents after the producer offers `chunk`: appended at the
/// back when there is room, and unchanged when the queue is saturated.
pub open spec fn queue_after_push(pending: Seq<Seq<u8>>, chunk: Seq<u8>) -> Seq<Seq<u8>> {
    if push_accepted(pending) {
        pending.push(chunk)
    } else {
        pending
    }
}

/// The queue contents after the consumer takes one chunk: the oldest chunk
/// leaves, and an empty queue stays empty.
pub open spec fn queue_after_pop(pending: Seq<Seq<u8>>) -> Seq<Seq<u8>> {
    if pending.len() > 0 {
        pending.drop_first()
    } else {
        pending
    }
}

impl TransferQueue {
    /// An empty transfer queue.
    pub fn new() -> (q: TransferQueue)
        ensures
            q@ == Seq::<Seq<u8>>::empty(),
    {
        let q = TransferQueue { chunks: Vec::new() };
        proof {
            assert(q@ =~= Seq::<Seq<u8>>::empty());
        }
        q
    }

    /// How many chunks are waiting.
    pub fn len(&self) -> (n: usize)
        ensures
            n == self@.len(),
    {
        self.chunks.len()
    }

    /// The producer offers a chunk.  With room it is queued at the back and
    /// nothing is returned; at capacity the chunk comes back untouched, so
    /// saturation halts the producer without losing a byte.
    pub fn push(&mut self, chunk: Vec<u8>) -> (refused: Option<Vec<u8>>)
        ensures
            final(self)@ == queue_after_push(old(self)@, chunk@),
            push_accepted(old(self)@) <==> refused is None,
            match refused {
                Some(c) => c == chunk,
                None => true,
            },
    {
        if self.chunks.len() < TRANSFER_QUEUE_CAPACITY {
            self.chunks.push(chunk);
            proof {
                assert(self@ =~= old(self)@.push(chunk@));
            }
            None
        } else {
            Some(chunk)
        }
    }

    /// The consumer takes the oldest chunk, if any.
    pub fn pop(&mut self) -> (chunk: Option<Vec<u8>>)
        ensures
            final(self)@ == queue_after_pop(old(self)@),
            old(self)@.len() == 0 <==> chunk is None,
            match chunk {
                Some(c) => old(self)@.len() > 0 && c@ == old(self)@[0],
                None => true,
            },
    {
        if self.chunks.len() == 0 {
            None
        } else {
            let c = self.chunks.remove(0);
            proof {
                assert(self@ =~= old(self)@.drop_first());
            }
            Some(c)
        }
    }
}

/// Chunks leave the transfer queue in the order the reader pushed them:
/// a push appends at the back and leaves every waiting chunk where it was,
/// so the concatenated outbound byte stream is the concatenated inbound one
/// — bytes are never reordered or merged across a chunk boundary.
pub proof fn lemma_transfer_preserves_byte_order(pending: Seq<Seq<u8>>, chunk: Seq<u8>)
    requires
        push_accepted(pending),
    ensures
        queue_after_push(pending, chunk).flatten() == pending.flatten() + chunk,
        queue_after_push(pending, chunk).len() == pending.len() + 1,
        queue_after_push(pending, chunk)[pending.len() as int] == chunk,
        forall|i: int|
            0 <= i < pending.len() ==> queue_after_push(pending, chunk)[i] == pending[i],
{
    pending.lemma_flatten_push(chunk);
}

/// The queue contents after the producer offers a whole run of chunks,
/// oldest first.
pub open spec fn queue_after_pushes(pending: Seq<Seq<u8>>, chunks: Seq<Seq<u8>>) -> Seq<Seq<u8>>
    decreases chunks.len(),
{
    if chunks.len() == 0 {
        pending
    } else {
        queue_after_pushes(queue_after_push(pending, chunks[0]), chunks.skip(1))
    }
}

/// A run of chunks that fits appends in arrival order: what waits in the
/// queue afterwards is the old contents followed by the run, chunk for
/// chunk, and the queued byte stream is the old stream followed by the
/// run's bytes — reads are never reordered.
pub proof fn lemma_queue_keeps_arrival_order(pending: Seq<Seq<u8>>, chunks: Seq<Seq<u8>>)
    requires
        pending.len() + chunks.len() <= TRANSFER_QUEUE_CAPACITY,
    ensures
        queue_after_pushes(pending, chunks) == pending + chunks,
        queue_after_pushes(pending, chunks).flatten() == pending.flatten() + chunks.flatten(),
    decreases chunks.len(),
{
    if chunks.len() == 0 {
        assert(pending + chunks =~= pending);
    } else {
        let first = chunks[0];
        assert(queue_after_push(pending, first) == pending.push(first));
        lemma_queue_keeps_arrival_order(pending.push(first), chunks.skip(1));
        assert(pending.push(first) + chunks.skip(1) =~= pending + chunks);
    }
    vstd::seq_lib::lemma_flatten_concat(pending, chunks);
}

/// Backpressure without loss: a saturated queue refuses the producer's chunk
/// and keeps every queued chunk, and draining a single chunk is exactly what
/// lets the producer resume.
pub proof fn lemma_backpressure_no_loss(pending: Seq<Seq<u8>>, chunk: Seq<u8>)
    requires
        pending.len() == TRANSFER_QUEUE_CAPACITY,
    ensures
        !push_accepted(pending),
        queue_after_push(pending, chunk) == pending,
        push_accepted(queue_after_pop(pending)),
        queue_after_push(queue_after_pop(pending), chunk) == pending.drop_first().push(chunk),
{
}

} // verus!
