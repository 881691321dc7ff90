//! The random byte producer: a requested number of pseudo-random bytes,
//! handed out in chunks of a bounded size.

use vstd::prelude::*;
use rand_xoshiro::Xoshiro256Plus;
use crate::rng::fill_bytes;

verus! {

/// Chunk size every workload uses: 8 MiB.
pub const CHUNK_BYTES: usize = 8 * 1024 * 1024;

/// Lengths of the chunks that make up `total` bytes when no chunk may
/// exceed `max_chunk`: each is the smaller of `max_chunk` and what is
/// still owed. There is always at least one chunk; for `total == 0` it is
/// the empty chunk.
pub open spec fn chunk_lengths(total: nat, max_chunk: nat) -> Seq<nat>
    decreases total,
{
    if max_chunk == 0 || total <= max_chunk {
        seq![total]
    } else {
        seq![max_chunk] + chunk_lengths((total - max_chunk) as nat, max_chunk)
    }
}

/// Sum of a sequence of lengths.
pub open spec fn total_length(lengths: Seq<nat>) -> nat
    decreases lengths.len(),
{
    if lengths.len() == 0 {
        0
    } else {
        lengths[0] + total_length(lengths.drop_first())
    }
}

/// The chunks add up to exactly the requested total, there is at least
/// one, none exceeds the bound, and all but the last are full.
pub proof fn lemma_chunks_cover_total(total: nat, max_chunk: nat)
    requires
        max_chunk > 0,
    ensures
        total_length(chunk_lengths(total, max_chunk)) == total,
        chunk_lengths(total, max_chunk).len() >= 1,
        forall|i: int|
            0 <= i < chunk_lengths(total, max_chunk).len() ==> #[trigger] chunk_lengths(
                total,
                max_chunk,
            )[i] <= max_chunk,
        forall|i: int|
            0 <= i < chunk_lengths(total, max_chunk).len() - 1 ==> #[trigger] chunk_lengths(
                total,
                max_chunk,
            )[i] == max_chunk,
    decreases total,
{
    let chunks = chunk_lengths(total, max_chunk);
    if total <= max_chunk {
        assert(chunks.drop_first() =~= Seq::<nat>::empty());
        assert(total_length(chunks.drop_first()) == 0);
    } else {
        let rest = chunk_lengths((total - max_chunk) as nat, max_chunk);
        lemma_chunks_cover_total((total - max_chunk) as nat, max_chunk);
        assert(chunks.drop_first() =~= rest);
        assert forall|i: int| 0 <= i < chunks.len() implies #[trigger] chunks[i] <= max_chunk by {
            if i > 0 {
                assert(chunks[i] == rest[i - 1]);
            }
        }
        assert forall|i: int| 0 <= i < chunks.len() - 1 implies #[trigger] chunks[i]
            == max_chunk by {
            if i > 0 {
                assert(chunks[i] == rest[i - 1]);
            }
        }
    }
}

/// A producer of `total` random bytes in chunks of at most `max_chunk`.
///
/// The producer owns one buffer of `max_chunk` bytes and refills all of it
/// before each chunk; the chunk is the front of that buffer.
pub struct RandomBytes {
    remaining: u64,
    finished: bool,
    buffer: Vec<u8>,
}

impl RandomBytes {
    /// The producer has a buffer to fill.
    pub closed spec fn wf(self) -> bool {
        self.buffer@.len() > 0
    }

    /// Upper bound on the length of a chunk.
    pub closed spec fn max_chunk(self) -> nat {
        self.buffer@.len()
    }

    /// Lengths of the chunks still to come, next one first.
    pub closed spec fn pending(self) -> Seq<nat> {
        if self.finished {
            Seq::empty()
        } else {
            chunk_lengths(self.remaining as nat, self.buffer@.len())
        }
    }

    /// A producer that owes `total_bytes` bytes.
    pub fn new(total_bytes: u64, max_chunk_bytes: usize) -> (producer: RandomBytes)
        requires
            max_chunk_bytes > 0,
        ensures
            producer.wf(),
            producer.max_chunk() == max_chunk_bytes,
            producer.pending() == chunk_lengths(total_bytes as nat, max_chunk_bytes as nat),
    {
        RandomBytes { remaining: total_bytes, finished: false, buffer: vec![0u8; max_chunk_bytes] }
    }

    /// Whether every chunk has been handed out.
    pub fn is_finished(&self) -> (done: bool)
        ensures
            done == (self.pending().len() == 0),
    {
        self.finished
    }

    /// Randomizes the buffer and hands out the next chunk, or `None` once
    /// the total has been delivered.
    pub fn next_chunk(&mut self, rng: &mut Xoshiro256Plus) -> (chunk: Option<&[u8]>)
        requires
            old(self).wf(),
        ensures
            final(self).wf(),
            final(self).max_chunk() == old(self).max_chunk(),
            old(self).pending().len() == 0 ==> chunk is None && final(self).pending() == old(
                self,
            ).pending(),
            old(self).pending().len() > 0 ==> {
                &&& chunk matches Some(bytes)
                &&& bytes@.len() == old(self).pending()[0]
                &&& final(self).pending() == old(self).pending().drop_first()
            },
    {
        if self.finished {
            return None;
        }
        fill_bytes(rng, &mut self.buffer);
        let max_chunk = self.buffer.len();
        let len: usize = if self.remaining <= max_chunk as u64 {
            self.remaining as usize
        } else {
            max_chunk
        };
        self.remaining = self.remaining - len as u64;
        if self.remaining == 0 {
            self.finished = true;
        }
        Some(vstd::slice::slice_subrange(self.buffer.as_slice(), 0, len))
    }
}

/// Whether `sink` may have given `answer` to a chunk of `length` bytes.
pub open spec fn answered<E, F: FnMut(&[u8]) -> Result<(), E>>(
    sink: F,
    length: nat,
    answer: Result<(), E>,
) -> bool {
    exists|chunk: &[u8]| chunk@.len() == length && #[trigger] call_ensures(sink, (chunk,), answer)
}

/// Whether `sink` may have taken a chunk of `length` bytes.
pub open spec fn accepted<E, F: FnMut(&[u8]) -> Result<(), E>>(sink: F, length: nat) -> bool {
    exists|answer: Result<(), E>| answer is Ok && #[trigger] answered(sink, length, answer)
}

/// Streams `total_bytes` random bytes into `sink`, chunk by chunk.
///
/// The sink is called once per chunk, in order, on buffers of the lengths
/// `chunk_lengths` gives. Its first failure ends the stream and is handed
/// back as it is; nothing is retried.
pub fn fill<E, F: FnMut(&[u8]) -> Result<(), E>>(
    rng: &mut Xoshiro256Plus,
    total_bytes: u64,
    max_chunk_bytes: usize,
    sink: F,
) -> (result: Result<(), E>)
    requires
        max_chunk_bytes > 0,
        forall|chunk: &[u8]| #[trigger] call_requires(sink, (chunk,)),
    ensures
        result is Ok ==> forall|i: int|
            0 <= i < chunk_lengths(total_bytes as nat, max_chunk_bytes as nat).len() ==> accepted(
                sink,
                #[trigger] chunk_lengths(total_bytes as nat, max_chunk_bytes as nat)[i],
            ),
        result is Err ==> exists|i: int|
            0 <= i < chunk_lengths(total_bytes as nat, max_chunk_bytes as nat).len() && answered(
                sink,
                #[trigger] chunk_lengths(total_bytes as nat, max_chunk_bytes as nat)[i],
                result,
            ),
{
    broadcast use vstd::function::group_function_axioms;

    let ghost plan = chunk_lengths(total_bytes as nat, max_chunk_bytes as nat);
    let ghost mut done: int = 0;
    let mut callee = sink;
    let mut producer = RandomBytes::new(total_bytes, max_chunk_bytes);
    loop
        invariant
            producer.wf(),
            plan == chunk_lengths(total_bytes as nat, max_chunk_bytes as nat),
            callee == sink,
            forall|chunk: &[u8]| #[trigger] call_requires(sink, (chunk,)),
            0 <= done <= plan.len(),
            producer.pending() == plan.skip(done),
            forall|i: int| 0 <= i < done ==> accepted(sink, #[trigger] plan[i]),
        decreases plan.len() - done,
    {
        match producer.next_chunk(rng) {
            Some(chunk) => {
                assert(plan.skip(done)[0] == plan[done]);
                assert(plan.skip(done).drop_first() =~= plan.skip(done + 1));
                let answer = callee(chunk);
                assert(answered(sink, plan[done], answer));
                if answer.is_err() {
                    return answer;
                }
                assert(accepted(sink, plan[done]));
                proof {
                    done = done + 1;
                }
            },
            None => {
                return Ok(());
            },
        }
    }
}

} // verus!
