//! The decisions of a session's two loops.
//!
//! A session bridges its pseudo-terminal and the network. Its reader loop
//! reads whatever the terminal produced and sends it, unchanged and without
//! waiting for a line end, as one `UpdateState` frame; a read of zero bytes is
//! the end of the stream. Its writer loop takes the next chunk from the
//! inbound queue and writes all of it to the terminal; a closed queue ends
//! it. Whichever loop ends first ends the session.

use crate::frame::{append_bytes, parse_server, server_bytes, ServerFrame, ServerMessage};
use vstd::prelude::*;

verus! {

/// The program a new session runs when none is configured.
pub const DEFAULT_SHELL: &'static str = "bash";

/// How many bytes the reader loop asks the terminal for at a time.
pub const READ_CHUNK_LEN: usize = 1024;

/// Why a session ended.
#[derive(Clone, Debug, PartialEq, Eq)]
pub enum Error {
    /// An operating-system call on the terminal or the socket failed.
    IO(String),
    /// The terminal's output or the inbound queue has come to its end.
    Closed,
    /// The pseudo-terminal could not be set up.
    Pty(String),
}

/// The datagram that carries a chunk of terminal output.
pub open spec fn update_datagram(chunk: Seq<u8>) -> Seq<u8> {
    server_bytes(ServerMessage::UpdateState { bytes: chunk })
}

/// The reader loop's step on what one read from the terminal returned: the
/// datagram to send, or `Closed` at the end of the stream.
pub fn forward_output(chunk: &[u8]) -> (r: Result<Vec<u8>, Error>)
    ensures
        chunk@.len() == 0 ==> r == Err::<Vec<u8>, Error>(Error::Closed),
        chunk@.len() > 0 ==> (r matches Ok(d) && d@ == update_datagram(chunk@)),
{
    if chunk.len() == 0 {
        return Err(Error::Closed);
    }
    let mut bytes: Vec<u8> = Vec::new();
    append_bytes(&mut bytes, chunk);
    assert(bytes@ =~= chunk@);
    let frame = ServerFrame::UpdateState { bytes };
    Ok(frame.encode())
}

/// The writer loop's step on what the inbound queue gave: the bytes to write
/// to the terminal, or `Closed` once no sender is left.
pub fn next_input(next: Option<Vec<u8>>) -> (r: Result<Vec<u8>, Error>)
    ensures
        next is None <==> r == Err::<Vec<u8>, Error>(Error::Closed),
        next matches Some(b) ==> (r matches Ok(w) && w@ == b@),
{
    match next {
        Some(bytes) => Ok(bytes),
        None => Err(Error::Closed),
    }
}

/// The bytes a client takes from a datagram as terminal output.
pub open spec fn output_of(datagram: Seq<u8>) -> Seq<u8> {
    match parse_server(datagram) {
        Ok(ServerMessage::UpdateState { bytes }) => bytes,
        _ => Seq::empty(),
    }
}

/// The chunks joined in order.
pub open spec fn joined(chunks: Seq<Seq<u8>>) -> Seq<u8>
    decreases chunks.len(),
{
    if chunks.len() == 0 {
        Seq::empty()
    } else {
        joined(chunks.drop_last()) + chunks.last()
    }
}

/// Whatever the terminal produces, in whatever chunks the reads return it,
/// the client that decodes the forwarded datagrams in order and joins their
/// payloads gets exactly the terminal's output.
pub proof fn lemma_output_arrives_unchanged(chunks: Seq<Seq<u8>>)
    requires
        forall|i: int| 0 <= i < chunks.len() ==> #[trigger] chunks[i].len() > 0,
    ensures
        joined(chunks.map_values(|c: Seq<u8>| output_of(update_datagram(c)))) == joined(chunks),
    decreases chunks.len(),
{
    if chunks.len() > 0 {
        let rest = chunks.drop_last();
        lemma_output_arrives_unchanged(rest);
        let c = chunks.last();
        crate::frame::lemma_server_round_trip_of(ServerMessage::UpdateState { bytes: c });
        let mapped = chunks.map_values(|c: Seq<u8>| output_of(update_datagram(c)));
        assert(mapped.drop_last() =~= rest.map_values(|c: Seq<u8>| output_of(update_datagram(c))));
    }
}

} // verus!
