use graylog::chunks::GelfChunks;
use graylog::error::{ErrorKind, GraylogError};
use graylog::wire::{CHUNK_PAYLOAD_SIZE, MAGIC_BYTES, MAX_CHUNKS};

fn patterned(len: usize) -> Vec<u8> {
    (0..len).map(|i| (i % 251) as u8).collect()
}

fn split(data: &[u8], message_id: u64) -> Vec<(u16, u64, u8, u8, Vec<u8>)> {
    let mut chunks = GelfChunks::new(data, message_id).unwrap();
    let mut out = Vec::new();
    while let Some(chunk) = chunks.next() {
        out.push((
            chunk.header.magic_bytes,
            chunk.header.message_id,
            chunk.header.seq_number,
            chunk.header.seq_count,
            chunk.data.to_vec(),
        ));
    }
    assert!(chunks.next().is_none());
    out
}

#[test]
fn two_chunks_for_one_byte_over_a_datagram() {
    let data = vec![7u8; 8193];
    let mut chunks = GelfChunks::new(&data, 42).unwrap();
    let first = chunks.next().unwrap();
    assert_eq!(first.header.magic_bytes, MAGIC_BYTES);
    assert_eq!(first.header.message_id, 42);
    assert_eq!(first.header.seq_number, 0);
    assert_eq!(first.header.seq_count, 2);
    assert_eq!(first.data.len(), CHUNK_PAYLOAD_SIZE);
    let second = chunks.next().unwrap();
    assert_eq!(second.header.seq_number, 1);
    assert_eq!(second.header.seq_count, 2);
    assert_eq!(second.data.len(), 13);
    assert!(chunks.next().is_none());
    assert!(chunks.next().is_none());
}

#[test]
fn chunk_count_is_the_length_divided_by_8180_rounded_up() {
    let cases: [(usize, usize); 12] = [
        (0, 0),
        (1, 1),
        (8179, 1),
        (8180, 1),
        (8181, 2),
        (8192, 2),
        (8193, 2),
        (16360, 2),
        (16361, 3),
        (100_000, 13),
        (1_047_040, 128),
        (2_085_900, 255),
    ];
    for (len, expected) in cases {
        let data = patterned(len);
        let chunks = split(&data, 1);
        assert_eq!(chunks.len(), expected, "length {}", len);
        assert_eq!(chunks.len(), (len + 8179) / 8180);
    }
}

#[test]
fn payloads_in_order_give_the_buffer_back() {
    for len in [0usize, 1, 8180, 8181, 8193, 24540, 24541, 70_000, 2_085_900] {
        let data = patterned(len);
        let chunks = split(&data, 99);
        let mut joined = Vec::new();
        for chunk in &chunks {
            joined.extend_from_slice(&chunk.4);
        }
        assert_eq!(joined, data, "length {}", len);
    }
}

#[test]
fn every_chunk_but_the_last_is_full() {
    let data = patterned(3 * 8180 + 5);
    let chunks = split(&data, 5);
    assert_eq!(chunks.len(), 4);
    assert_eq!(chunks[0].4.len(), 8180);
    assert_eq!(chunks[1].4.len(), 8180);
    assert_eq!(chunks[2].4.len(), 8180);
    assert_eq!(chunks[3].4.len(), 5);
    assert_eq!(chunks[1].4[..], data[8180..16360]);
}

#[test]
fn chunks_share_id_and_count_and_are_numbered_in_order() {
    let id = 0xdead_beef_0123_4567u64;
    let data = patterned(10 * 8180 + 1);
    let chunks = split(&data, id);
    assert_eq!(chunks.len(), 11);
    for (index, chunk) in chunks.iter().enumerate() {
        assert_eq!(chunk.0, 0x1e0f);
        assert_eq!(chunk.1, id);
        assert_eq!(chunk.2 as usize, index);
        assert_eq!(chunk.3, 11);
    }
}

#[test]
fn the_longest_message_has_255_chunks_numbered_0_to_254() {
    let data = patterned(MAX_CHUNKS * CHUNK_PAYLOAD_SIZE);
    let chunks = split(&data, 3);
    assert_eq!(chunks.len(), 255);
    assert_eq!(chunks[0].2, 0);
    assert_eq!(chunks[254].2, 254);
    assert_eq!(chunks[254].3, 255);
    assert_eq!(chunks[254].4.len(), 8180);
}

#[test]
fn more_than_128_chunks_are_accepted() {
    let data = patterned(128 * 8180 + 1);
    let chunks = split(&data, 3);
    assert_eq!(chunks.len(), 129);
    assert_eq!(chunks[128].3, 129);
}

#[test]
fn a_buffer_that_needs_256_chunks_is_refused() {
    let data = vec![0u8; 255 * 8180 + 1];
    match GelfChunks::new(&data, 1) {
        Err(GraylogError::TooManyChunks { needed }) => assert_eq!(needed, 256),
        _ => panic!("a message of 256 chunks was accepted"),
    }
    let err = GelfChunks::new(&data, 1).err().unwrap();
    assert_eq!(err.kind(), ErrorKind::Encoding);
}

#[test]
fn a_much_longer_buffer_is_refused_with_its_chunk_count() {
    let data = vec![0u8; 300 * 8180];
    match GelfChunks::new(&data, 1) {
        Err(GraylogError::TooManyChunks { needed }) => assert_eq!(needed, 300),
        _ => panic!("a message of 300 chunks was accepted"),
    }
}

#[test]
fn an_empty_buffer_has_no_chunks() {
    let data: Vec<u8> = Vec::new();
    let mut chunks = GelfChunks::new(&data, 1).unwrap();
    assert!(chunks.next().is_none());
}
