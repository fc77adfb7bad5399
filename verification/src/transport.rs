//! Laying a compressed message out as datagrams: whole when it fits in one,
//! as chunks when it does not.

use crate::chunks::{
    chunk_at, chunk_count, chunks_of, concat_payloads, lemma_chunk_sizes, lemma_chunks_reassemble,
    GelfChunks,
};
use crate::error::GraylogError;
use crate::wire::{
    lemma_header_bytes_spell_fields, ChunkView, HEADER_SIZE, MAX_CHUNKS, MAX_PACKET_SIZE,
};
use vstd::prelude::*;
use vstd::slice::slice_to_vec;

verus! {

/// The longest compressed message that can be sent: `MAX_CHUNKS` full chunks.
pub const MAX_MESSAGE_SIZE: usize = 2_085_900;

/// The datagrams that carry the chunks of `data`, in sending order: each chunk
/// encoded.
pub open spec fn chunked_datagrams(data: Seq<u8>, message_id: u64) -> Seq<Seq<u8>> {
    chunks_of(data, message_id).map_values(|chunk: ChunkView| chunk.wire_bytes())
}

/// The datagrams that carry the compressed message `data`, in sending order:
/// the message itself where it fits in one datagram, its chunks where it does not.
pub open spec fn wire_datagrams(data: Seq<u8>, message_id: u64) -> Seq<Seq<u8>> {
    if data.len() <= MAX_PACKET_SIZE {
        seq![data]
    } else {
        chunked_datagrams(data, message_id)
    }
}

/// What a receiver makes of the datagrams of a chunked message: what follows
/// the header in each, one after the other.
pub open spec fn reassembled(datagrams: Seq<Seq<u8>>) -> Seq<u8>
    decreases datagrams.len(),
{
    if datagrams.len() == 0 {
        Seq::empty()
    } else {
        reassembled(datagrams.drop_last()) + datagrams.last().skip(HEADER_SIZE as int)
    }
}

/// Whether a compressed message is too long for one datagram.
pub fn needs_chunking(buffer: &[u8]) -> (chunked: bool)
    ensures
        chunked == (buffer@.len() > MAX_PACKET_SIZE),
{
    buffer.len() > MAX_PACKET_SIZE
}

/// Splits `buffer` into chunks and encodes each as a datagram. A buffer that
/// needs more than `MAX_CHUNKS` chunks is refused.
pub fn chunk_datagrams(buffer: &[u8], message_id: u64) -> (res: Result<
    Vec<Vec<u8>>,
    GraylogError,
>)
    ensures
        match res {
            Ok(packets) => {
                &&& chunk_count(buffer@.len()) <= MAX_CHUNKS
                &&& packets.deep_view() == chunked_datagrams(buffer@, message_id)
                &&& packets@.len() == chunk_count(buffer@.len())
                &&& forall|index: int|
                    0 <= index < packets@.len() ==> #[trigger] packets@[index]@ == chunk_at(
                        buffer@,
                        message_id,
                        index,
                    ).wire_bytes()
            },
            Err(err) => {
                &&& chunk_count(buffer@.len()) > MAX_CHUNKS
                &&& err matches GraylogError::TooManyChunks { needed }
                &&& needed == chunk_count(buffer@.len())
            },
        },
{
    let mut chunks = match GelfChunks::new(buffer, message_id) {
        Ok(chunks) => chunks,
        Err(err) => {
            return Err(err);
        },
    };
    let ghost all = chunks_of(buffer@, message_id);
    let mut packets: Vec<Vec<u8>> = Vec::new();
    loop
        invariant
            all == chunks_of(buffer@, message_id),
            chunk_count(buffer@.len()) <= MAX_CHUNKS,
            packets@.len() <= all.len(),
            chunks@ == all.skip(packets@.len() as int),
            forall|index: int|
                0 <= index < packets@.len() ==> #[trigger] packets@[index]@
                    == all[index].wire_bytes(),
        decreases chunks@.len(),
    {
        match chunks.next() {
            Some(chunk) => {
                assert(all.skip(packets@.len() as int).drop_first() =~= all.skip(
                    packets@.len() as int + 1,
                ));
                packets.push(chunk.to_binary());
            },
            None => {
                assert(packets.deep_view() =~~= chunked_datagrams(buffer@, message_id));
                return Ok(packets);
            },
        }
    }
}

/// The datagrams to send for the compressed message `buffer`, in order. A
/// message of at most `MAX_PACKET_SIZE` bytes goes out unchanged as one
/// datagram; a longer one goes out as chunks that carry `message_id`; one longer
/// than `MAX_MESSAGE_SIZE` is refused.
pub fn datagrams(buffer: &[u8], message_id: u64) -> (res: Result<Vec<Vec<u8>>, GraylogError>)
    ensures
        match res {
            Ok(packets) => {
                &&& buffer@.len() <= MAX_MESSAGE_SIZE
                &&& packets.deep_view() == wire_datagrams(buffer@, message_id)
                &&& buffer@.len() <= MAX_PACKET_SIZE ==> packets@.len() == 1 && packets@[0]@
                    == buffer@
                &&& buffer@.len() > MAX_PACKET_SIZE ==> packets@.len() == chunk_count(
                    buffer@.len(),
                ) && forall|index: int|
                    0 <= index < packets@.len() ==> #[trigger] packets@[index]@ == chunk_at(
                        buffer@,
                        message_id,
                        index,
                    ).wire_bytes()
            },
            Err(err) => {
                &&& buffer@.len() > MAX_MESSAGE_SIZE
                &&& err matches GraylogError::TooManyChunks { needed }
                &&& needed == chunk_count(buffer@.len())
            },
        },
{
    if needs_chunking(buffer) {
        chunk_datagrams(buffer, message_id)
    } else {
        let mut packets: Vec<Vec<u8>> = Vec::new();
        packets.push(slice_to_vec(buffer));
        assert(packets.deep_view() =~~= wire_datagrams(buffer@, message_id));
        Ok(packets)
    }
}

/// A message can be split into at most `MAX_CHUNKS` chunks exactly when it is
/// at most `MAX_MESSAGE_SIZE` bytes long.
pub proof fn lemma_max_message_size(len: nat)
    ensures
        chunk_count(len) <= MAX_CHUNKS <==> len <= MAX_MESSAGE_SIZE,
{
}

/// A compressed message of at most `MAX_PACKET_SIZE` bytes is sent as exactly
/// one datagram, and that datagram is the message unchanged: no header before
/// it, nothing after it, the same length.
pub proof fn lemma_short_message_is_sent_whole(data: Seq<u8>, message_id: u64)
    requires
        data.len() <= MAX_PACKET_SIZE,
    ensures
        wire_datagrams(data, message_id).len() == 1,
        wire_datagrams(data, message_id)[0] == data,
        wire_datagrams(data, message_id)[0].len() == data.len(),
{
}

/// A compressed message of more than `MAX_PACKET_SIZE` bytes is sent as its
/// chunks, of which there are at least two.
pub proof fn lemma_long_message_is_chunked(data: Seq<u8>, message_id: u64)
    requires
        data.len() > MAX_PACKET_SIZE,
    ensures
        wire_datagrams(data, message_id) == chunked_datagrams(data, message_id),
        wire_datagrams(data, message_id).len() == chunk_count(data.len()),
        wire_datagrams(data, message_id).len() >= 2,
{
}

/// No datagram of a message is longer than `MAX_PACKET_SIZE`.
pub proof fn lemma_datagrams_fit(data: Seq<u8>, message_id: u64, index: int)
    requires
        0 <= index < wire_datagrams(data, message_id).len(),
    ensures
        wire_datagrams(data, message_id)[index].len() <= MAX_PACKET_SIZE,
{
    if data.len() > MAX_PACKET_SIZE {
        lemma_chunk_sizes(data, message_id, index);
    }
}

/// What a receiver makes of chunks that were encoded as datagrams is what the
/// chunks carry.
proof fn lemma_reassembled_is_payloads(chunks: Seq<ChunkView>)
    ensures
        reassembled(chunks.map_values(|chunk: ChunkView| chunk.wire_bytes())) == concat_payloads(
            chunks,
        ),
    decreases chunks.len(),
{
    let datagrams = chunks.map_values(|chunk: ChunkView| chunk.wire_bytes());
    if chunks.len() > 0 {
        lemma_reassembled_is_payloads(chunks.drop_last());
        assert(datagrams.drop_last() =~= chunks.drop_last().map_values(
            |chunk: ChunkView| chunk.wire_bytes(),
        ));
        lemma_header_bytes_spell_fields(chunks.last().header);
        assert(datagrams.last().skip(HEADER_SIZE as int) =~= chunks.last().payload);
    }
}

/// A receiver that strips the header from each datagram of a chunked message
/// and puts what is left one after the other, in sending order, has the
/// compressed message.
pub proof fn lemma_receiver_reassembles(data: Seq<u8>, message_id: u64)
    ensures
        reassembled(chunked_datagrams(data, message_id)) == data,
{
    lemma_reassembled_is_payloads(chunks_of(data, message_id));
    lemma_chunks_reassemble(data, message_id);
}

} // verus!
