//! The binary layout of one chunk: a header of twelve bytes, then the payload.

use byteorder::{BigEndian, ByteOrder};
use vstd::prelude::*;

verus! {

/// The largest datagram the protocol sends.
pub const MAX_PACKET_SIZE: usize = 8192;

/// The size of a chunk header on the wire.
pub const HEADER_SIZE: usize = 12;

/// The marker that opens every chunk header.
pub const MAGIC_BYTES: u16 = 0x1e0f;

/// The most payload bytes one chunk carries: what a datagram holds beyond the
/// header.
pub const CHUNK_PAYLOAD_SIZE: usize = 8180;

/// The most chunks one message may be split into: the count travels in one byte.
pub const MAX_CHUNKS: usize = 255;

/// A chunk that carries `CHUNK_PAYLOAD_SIZE` bytes fills, with its header, a
/// datagram of `MAX_PACKET_SIZE` bytes exactly.
pub proof fn lemma_full_chunk_fills_a_datagram()
    ensures
        HEADER_SIZE + CHUNK_PAYLOAD_SIZE == MAX_PACKET_SIZE,
{
}

/// The two bytes of `value`, most significant first.
pub open spec fn u16_be_bytes(value: u16) -> Seq<u8> {
    seq![(value / 0x100) as u8, (value % 0x100) as u8]
}

/// The eight bytes of `value`, most significant first.
pub open spec fn u64_be_bytes(value: u64) -> Seq<u8> {
    seq![
        (value / 0x100_0000_0000_0000) as u8,
        (value / 0x1_0000_0000_0000 % 0x100) as u8,
        (value / 0x100_0000_0000 % 0x100) as u8,
        (value / 0x1_0000_0000 % 0x100) as u8,
        (value / 0x100_0000 % 0x100) as u8,
        (value / 0x1_0000 % 0x100) as u8,
        (value / 0x100 % 0x100) as u8,
        (value % 0x100) as u8,
    ]
}

/// `byteorder::ByteOrder::write_u16` of `BigEndian`, called on a zeroed buffer of
/// two bytes: the buffer then holds `value` in big-endian order.
#[verifier::external_body]
fn be_u16(value: u16) -> (bytes: [u8; 2])
    ensures
        bytes@ == u16_be_bytes(value),
{
    let mut bytes = [0u8; 2];
    BigEndian::write_u16(&mut bytes, value);
    bytes
}

/// `byteorder::ByteOrder::write_u64` of `BigEndian`, called on a zeroed buffer of
/// eight bytes: the buffer then holds `value` in big-endian order.
#[verifier::external_body]
pub(crate) fn be_u64(value: u64) -> (bytes: [u8; 8])
    ensures
        bytes@ == u64_be_bytes(value),
{
    let mut bytes = [0u8; 8];
    BigEndian::write_u64(&mut bytes, value);
    bytes
}

/// What precedes the payload in every chunk.
#[derive(Clone, Copy, Debug, PartialEq, Eq, Structural)]
pub struct ChunkHeader {
    pub magic_bytes: u16,
    pub message_id: u64,
    pub seq_number: u8,
    pub seq_count: u8,
}

impl ChunkHeader {
    /// The header as it travels: marker, message id, sequence number, count.
    pub open spec fn wire_bytes(self) -> Seq<u8> {
        u16_be_bytes(self.magic_bytes) + u64_be_bytes(self.message_id) + seq![
            self.seq_number,
            self.seq_count,
        ]
    }
}

/// One chunk as a value: its header and the bytes it carries.
pub struct ChunkView {
    pub header: ChunkHeader,
    pub payload: Seq<u8>,
}

impl ChunkView {
    /// The datagram that carries this chunk: the header, then the payload as it is.
    pub open spec fn wire_bytes(self) -> Seq<u8> {
        self.header.wire_bytes() + self.payload
    }
}

/// One fragment of a compressed message, borrowing its payload from the message.
#[derive(Debug)]
pub struct Chunk<'a> {
    pub header: ChunkHeader,
    pub data: &'a [u8],
}

impl<'a> View for Chunk<'a> {
    type V = ChunkView;

    open spec fn view(&self) -> ChunkView {
        ChunkView { header: self.header, payload: self.data@ }
    }
}

impl<'a> Chunk<'a> {
    /// Encodes the chunk as one datagram.
    pub fn to_binary(&self) -> (bytes: Vec<u8>)
        ensures
            bytes@ == self@.wire_bytes(),
    {
        let mut wrt: Vec<u8> = Vec::new();
        let magic = be_u16(self.header.magic_bytes);
        wrt.extend_from_slice(&magic);
        let id = be_u64(self.header.message_id);
        wrt.extend_from_slice(&id);
        wrt.push(self.header.seq_number);
        wrt.push(self.header.seq_count);
        wrt.extend_from_slice(self.data);
        wrt
    }
}

/// The bytes of a header give its fields back: the marker and the message id
/// are the numbers that their bytes spell, most significant byte first.
pub proof fn lemma_header_bytes_spell_fields(header: ChunkHeader)
    ensures
        header.wire_bytes().len() == HEADER_SIZE,
        header.magic_bytes == header.wire_bytes()[0] * 0x100 + header.wire_bytes()[1],
        header.message_id == header.wire_bytes()[2] * 0x100_0000_0000_0000 + header.wire_bytes()[3]
            * 0x1_0000_0000_0000 + header.wire_bytes()[4] * 0x100_0000_0000
            + header.wire_bytes()[5] * 0x1_0000_0000 + header.wire_bytes()[6] * 0x100_0000
            + header.wire_bytes()[7] * 0x1_0000 + header.wire_bytes()[8] * 0x100
            + header.wire_bytes()[9],
        header.seq_number == header.wire_bytes()[10],
        header.seq_count == header.wire_bytes()[11],
{
    let id = header.message_id;
    assert(id == (id / 0x100_0000_0000_0000) * 0x100_0000_0000_0000 + (id / 0x1_0000_0000_0000
        % 0x100) * 0x1_0000_0000_0000 + (id / 0x100_0000_0000 % 0x100) * 0x100_0000_0000 + (id
        / 0x1_0000_0000 % 0x100) * 0x1_0000_0000 + (id / 0x100_0000 % 0x100) * 0x100_0000 + (id
        / 0x1_0000 % 0x100) * 0x1_0000 + (id / 0x100 % 0x100) * 0x100 + id % 0x100)
        by (bit_vector);
}

/// A datagram tells which chunk it carries: two chunks with the same bytes on
/// the wire have the same header and the same payload.
pub proof fn lemma_wire_bytes_determine_chunk(a: ChunkView, b: ChunkView)
    requires
        a.wire_bytes() == b.wire_bytes(),
    ensures
        a == b,
{
    lemma_header_bytes_spell_fields(a.header);
    lemma_header_bytes_spell_fields(b.header);
    assert forall|index: int| 0 <= index < HEADER_SIZE implies a.header.wire_bytes()[index]
        == b.header.wire_bytes()[index] by {
        assert(a.header.wire_bytes()[index] == a.wire_bytes()[index]);
        assert(b.header.wire_bytes()[index] == b.wire_bytes()[index]);
    }
    assert(a.payload =~= a.wire_bytes().skip(HEADER_SIZE as int));
    assert(b.payload =~= b.wire_bytes().skip(HEADER_SIZE as int));
}

} // verus!
