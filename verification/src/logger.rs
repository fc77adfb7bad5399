//! What one log call does with its event: the datagrams it sends, and the line
//! it leaves behind when sending fails.

use crate::chunks::{chunk_at, chunk_count};
use crate::error::GraylogError;
use crate::gelf::Gelf;
use crate::transport::{datagrams, wire_datagrams, MAX_MESSAGE_SIZE};
use crate::wire::MAX_PACKET_SIZE;
use vstd::prelude::*;
use vstd::string::StringExecFns;

verus! {

/// The datagrams to send for `gelf`, in order: the message serialised,
/// compressed, and laid out whole or in chunks. `nanos` is a sample of a
/// high-resolution clock, from which the id of a chunked message is derived.
/// The only message refused is one whose compressed form is longer than
/// `MAX_MESSAGE_SIZE`. A message whose compressed form fits in one datagram is
/// sent as exactly that datagram: the compressed bytes, with nothing before or
/// after them.
pub fn encode(gelf: &Gelf, nanos: u32) -> (res: Result<Vec<Vec<u8>>, GraylogError>)
    ensures
        res is Ok <==> gelf@.compressed().len() <= MAX_MESSAGE_SIZE,
        match res {
            Ok(packets) => {
                &&& packets.deep_view() == wire_datagrams(
                    gelf@.compressed(),
                    gelf@.message_id(nanos),
                )
                &&& gelf@.compressed().len() <= MAX_PACKET_SIZE ==> packets@.len() == 1
                    && packets@[0]@ == gelf@.compressed()
                &&& gelf@.compressed().len() > MAX_PACKET_SIZE ==> packets@.len() == chunk_count(
                    gelf@.compressed().len(),
                ) && forall|index: int|
                    0 <= index < packets@.len() ==> #[trigger] packets@[index]@ == chunk_at(
                        gelf@.compressed(),
                        gelf@.message_id(nanos),
                        index,
                    ).wire_bytes()
            },
            Err(err) => {
                &&& err matches GraylogError::TooManyChunks { needed }
                &&& needed == chunk_count(gelf@.compressed().len())
            },
        },
{
    let compressed = match gelf.compress() {
        Ok(compressed) => compressed,
        Err(err) => {
            return Err(err);
        },
    };
    datagrams(compressed.as_slice(), gelf.message_id(nanos))
}

/// The line that stands in for an event that could not be sent: when it
/// happened, how severe it is, and what it says.
pub open spec fn fallback_text(timestamp: Seq<char>, level: Seq<char>, message: Seq<char>) -> Seq<
    char,
> {
    timestamp + " "@ + level + " - "@ + message
}

/// Renders an event as one line of plain text.
pub fn fallback_line(timestamp: &str, level: &str, message: &str) -> (line: String)
    ensures
        line@ == fallback_text(timestamp@, level@, message@),
{
    let mut line = timestamp.to_owned();
    line.append(" ");
    line.append(level);
    line.append(" - ");
    line.append(message);
    line
}

/// Decides what a log call leaves behind once sending was attempted. A failure
/// never reaches the caller of the log call: it becomes a line of plain text for
/// a local sink. After a success there is nothing to write.
pub fn fallback<T>(
    outcome: &Result<T, GraylogError>,
    timestamp: &str,
    level: &str,
    message: &str,
) -> (line: Option<String>)
    ensures
        match line {
            Some(text) => outcome is Err && text@ == fallback_text(timestamp@, level@, message@),
            None => outcome is Ok,
        },
{
    match outcome {
        Ok(_) => None,
        Err(_) => Some(fallback_line(timestamp, level, message)),
    }
}

} // verus!
