//! Compressing a serialised message.

use crate::error::GraylogError;
use flate2::write::GzEncoder;
use flate2::Compression;
use std::io::Write;
use vstd::prelude::*;

verus! {

/// The gzip stream that `flate2` writes for `data` at its default level.
pub uninterp spec fn gzip_bytes(data: Seq<u8>) -> Seq<u8>;

/// `flate2::write::GzEncoder` over a `Vec<u8>`, made by `GzEncoder::new` with
/// `Compression::default()`, fed `data` in one `write_all` and closed by `finish`.
/// The header it writes holds no time and no operating system, so the stream
/// depends on `data` alone. The encoder reports an error only when its sink
/// does or when the compressor is driven out of order; the sink is a vector,
/// which takes every write, and the three calls come in the order the
/// compressor expects, so the result is always `Ok`.
#[verifier::external_body]
fn gzip(data: &[u8]) -> (res: Result<Vec<u8>, std::io::Error>)
    ensures
        res is Ok,
        res matches Ok(stream) ==> stream@ == gzip_bytes(data@),
{
    let mut encoder = GzEncoder::new(Vec::new(), Compression::default());
    encoder.write_all(data)?;
    encoder.finish()
}

/// Compresses `data` as one gzip stream. Compressing into memory always
/// succeeds; an error of the encoder would come back as an I/O failure.
pub fn compress(data: &[u8]) -> (res: Result<Vec<u8>, GraylogError>)
    ensures
        res matches Ok(stream) && stream@ == gzip_bytes(data@),
{
    match gzip(data) {
        Ok(stream) => Ok(stream),
        Err(err) => Err(GraylogError::Io(err)),
    }
}

} // verus!
