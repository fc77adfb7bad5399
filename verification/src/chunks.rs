//! Splitting a compressed message into chunks that each fit in one datagram.

use crate::error::GraylogError;
use crate::wire::{
    Chunk, ChunkHeader, ChunkView, CHUNK_PAYLOAD_SIZE, MAGIC_BYTES, MAX_CHUNKS, MAX_PACKET_SIZE,
};
use vstd::prelude::*;
use vstd::slice::slice_subrange;

verus! {

/// How many chunks a buffer of `len` bytes is split into: `len` divided by the
/// payload size of a chunk, rounded up.
pub open spec fn chunk_count(len: nat) -> nat {
    ((len + CHUNK_PAYLOAD_SIZE - 1) / (CHUNK_PAYLOAD_SIZE as int)) as nat
}

/// The bytes of `data` that chunk number `index` carries.
pub open spec fn chunk_payload(data: Seq<u8>, index: int) -> Seq<u8> {
    let start = index * CHUNK_PAYLOAD_SIZE;
    let end = if start + CHUNK_PAYLOAD_SIZE <= data.len() {
        start + CHUNK_PAYLOAD_SIZE
    } else {
        data.len() as int
    };
    data.subrange(start, end)
}

/// Chunk number `index` of the message `data` sent under `message_id`.
pub open spec fn chunk_at(data: Seq<u8>, message_id: u64, index: int) -> ChunkView {
    ChunkView {
        header: ChunkHeader {
            magic_bytes: MAGIC_BYTES,
            message_id,
            seq_number: index as u8,
            seq_count: chunk_count(data.len()) as u8,
        },
        payload: chunk_payload(data, index),
    }
}

/// All chunks of the message `data` sent under `message_id`, in sending order.
pub open spec fn chunks_of(data: Seq<u8>, message_id: u64) -> Seq<ChunkView> {
    Seq::new(chunk_count(data.len()), |index: int| chunk_at(data, message_id, index))
}

/// The payloads of `chunks`, one after the other.
pub open spec fn concat_payloads(chunks: Seq<ChunkView>) -> Seq<u8>
    decreases chunks.len(),
{
    if chunks.len() == 0 {
        Seq::empty()
    } else {
        concat_payloads(chunks.drop_last()) + chunks.last().payload
    }
}

/// The chunks of one message, handed out one by one and once only. Its view is
/// the chunks still to come, in sending order.
#[derive(Debug)]
pub struct GelfChunks<'a> {
    count: usize,
    total: usize,
    data: &'a [u8],
    message_id: u64,
}

impl<'a> View for GelfChunks<'a> {
    type V = Seq<ChunkView>;

    closed spec fn view(&self) -> Seq<ChunkView> {
        chunks_of(self.data@, self.message_id).skip(self.count as int)
    }
}

impl<'a> GelfChunks<'a> {
    #[verifier::type_invariant]
    spec fn well_formed(self) -> bool {
        &&& self.total == chunk_count(self.data@.len())
        &&& self.total <= MAX_CHUNKS
        &&& self.count <= self.total
    }

    /// Prepares to split `data` into chunks that carry `message_id`. A buffer that
    /// needs more than `MAX_CHUNKS` chunks is refused: the count would not fit the
    /// header.
    pub fn new(data: &'a [u8], message_id: u64) -> (res: Result<GelfChunks<'a>, GraylogError>)
        ensures
            match res {
                Ok(chunks) => {
                    &&& chunk_count(data@.len()) <= MAX_CHUNKS
                    &&& chunks@ == chunks_of(data@, message_id)
                },
                Err(err) => {
                    &&& chunk_count(data@.len()) > MAX_CHUNKS
                    &&& err matches GraylogError::TooManyChunks { needed }
                    &&& needed == chunk_count(data@.len())
                },
            },
    {
        let len = data.len();
        let partial: usize = if len % CHUNK_PAYLOAD_SIZE == 0 {
            0
        } else {
            1
        };
        let total = len / CHUNK_PAYLOAD_SIZE + partial;
        if total > MAX_CHUNKS {
            return Err(GraylogError::TooManyChunks { needed: total });
        }
        let chunks = GelfChunks { count: 0, total, data, message_id };
        assert(chunks@ =~= chunks_of(data@, message_id));
        Ok(chunks)
    }

    /// Hands out the next chunk, or `None` once all have been handed out.
    pub fn next(&mut self) -> (res: Option<Chunk<'a>>)
        ensures
            match res {
                Some(chunk) => {
                    &&& old(self)@.len() > 0
                    &&& chunk@ == old(self)@.first()
                    &&& final(self)@ == old(self)@.drop_first()
                },
                None => {
                    &&& old(self)@.len() == 0
                    &&& final(self)@ == old(self)@
                },
            },
    {
        proof {
            use_type_invariant(&*self);
        }
        if self.count >= self.total {
            return None;
        }
        let data: &'a [u8] = self.data;
        let start = self.count * CHUNK_PAYLOAD_SIZE;
        let end = if data.len() - start >= CHUNK_PAYLOAD_SIZE {
            start + CHUNK_PAYLOAD_SIZE
        } else {
            data.len()
        };
        let header = ChunkHeader {
            magic_bytes: MAGIC_BYTES,
            message_id: self.message_id,
            seq_number: self.count as u8,
            seq_count: self.total as u8,
        };
        self.count += 1;
        assert(self@ =~= old(self)@.drop_first());
        Some(Chunk { header, data: slice_subrange(data, start, end) })
    }
}

/// The number of chunks is the length divided by the payload size, rounded up:
/// the chunks together have room for the buffer, and one chunk fewer would not.
pub proof fn lemma_chunk_count_is_ceiling(len: nat)
    ensures
        len <= chunk_count(len) * CHUNK_PAYLOAD_SIZE < len + CHUNK_PAYLOAD_SIZE,
{
}

/// Every chunk carries at least one byte and at most `CHUNK_PAYLOAD_SIZE`; all
/// but the last carry exactly that many, so that each chunk with its header fits
/// in one datagram.
pub proof fn lemma_chunk_sizes(data: Seq<u8>, message_id: u64, index: int)
    requires
        0 <= index < chunk_count(data.len()),
    ensures
        0 < chunks_of(data, message_id)[index].payload.len() <= CHUNK_PAYLOAD_SIZE,
        index + 1 < chunk_count(data.len()) ==> chunks_of(data, message_id)[index].payload.len()
            == CHUNK_PAYLOAD_SIZE,
        chunks_of(data, message_id)[index].wire_bytes().len() <= MAX_PACKET_SIZE,
{
}

/// The payloads of the first `upto` chunks, one after the other, are the bytes
/// of the buffer that precede chunk number `upto`.
proof fn lemma_prefix_reassembles(data: Seq<u8>, message_id: u64, upto: nat)
    requires
        upto <= chunk_count(data.len()),
    ensures
        concat_payloads(chunks_of(data, message_id).take(upto as int)) == data.take(
            if upto * CHUNK_PAYLOAD_SIZE <= data.len() {
                upto * CHUNK_PAYLOAD_SIZE
            } else {
                data.len() as int
            },
        ),
    decreases upto,
{
    let chunks = chunks_of(data, message_id);
    let prefix = chunks.take(upto as int);
    if upto == 0 {
        assert(concat_payloads(prefix) =~= data.take(0));
    } else {
        lemma_prefix_reassembles(data, message_id, (upto - 1) as nat);
        assert(prefix.drop_last() =~= chunks.take(upto - 1));
        assert(prefix.last() == chunk_at(data, message_id, upto - 1));
        let end = if upto * CHUNK_PAYLOAD_SIZE <= data.len() {
            upto * CHUNK_PAYLOAD_SIZE
        } else {
            data.len() as int
        };
        assert(data.take((upto - 1) * CHUNK_PAYLOAD_SIZE) + chunk_payload(data, upto - 1)
            =~= data.take(end));
    }
}

/// Putting the payloads of all chunks of a buffer one after the other, in
/// sending order, gives the buffer back.
pub proof fn lemma_chunks_reassemble(data: Seq<u8>, message_id: u64)
    ensures
        chunks_of(data, message_id).len() == chunk_count(data.len()),
        concat_payloads(chunks_of(data, message_id)) == data,
{
    let chunks = chunks_of(data, message_id);
    lemma_prefix_reassembles(data, message_id, chunk_count(data.len()));
    assert(chunks.take(chunks.len() as int) =~= chunks);
    assert(data.take(data.len() as int) =~= data);
}

/// All chunks of one message carry the marker, the same message id and the same
/// count, which is the number of chunks; the sequence number of each chunk is its
/// place in the sending order, so the numbers run from 0 to the count less one
/// with no gap and no repeat.
pub proof fn lemma_chunk_headers(data: Seq<u8>, message_id: u64)
    requires
        chunk_count(data.len()) <= MAX_CHUNKS,
    ensures
        forall|index: int|
            0 <= index < chunks_of(data, message_id).len() ==> {
                let header = (#[trigger] chunks_of(data, message_id)[index]).header;
                &&& header.magic_bytes == MAGIC_BYTES
                &&& header.message_id == message_id
                &&& header.seq_count == chunks_of(data, message_id).len()
                &&& header.seq_number == index
            },
{
}

} // verus!
