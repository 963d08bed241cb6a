//! The wire protocol: frames exchanged between client and server.
//!
//! Each datagram carries exactly one frame. Its first byte is the kind of the
//! frame; a session id follows as 16 little-endian bytes where the kind has
//! one; a byte payload, where the kind has one, takes the rest of the
//! datagram (the transport already delimits messages).

use vstd::bytes::{
    lemma_auto_spec_u128_to_from_le_bytes, spec_u128_from_le_bytes, spec_u128_to_le_bytes,
    u128_from_le_bytes, u128_to_le_bytes,
};
use vstd::prelude::*;

verus! {

/// Kind byte of `ClientFrame::NewSession`.
pub const KIND_NEW_SESSION: u8 = 0x01;

/// Kind byte of `ClientFrame::Write`.
pub const KIND_WRITE: u8 = 0x02;

/// Kind byte of `ServerFrame::NewSessionAck`.
pub const KIND_NEW_SESSION_ACK: u8 = 0x81;

/// Kind byte of `ServerFrame::UpdateState`.
pub const KIND_UPDATE_STATE: u8 = 0x82;

/// The port the server listens on.
pub const PORT: u16 = 7070;

/// Size of a receive buffer: a datagram never holds more.
pub const MAX_DATAGRAM_LEN: usize = 65536;

/// Width of an encoded session id.
pub const SESSION_ID_LEN: usize = 16;

/// The opaque 128-bit identifier of a session.
#[derive(Clone, Copy, Debug, PartialEq, Eq, Hash, Structural)]
pub struct SessionId {
    pub value: u128,
}

impl SessionId {
    pub fn new(value: u128) -> (r: SessionId)
        ensures
            r.value == value,
    {
        SessionId { value }
    }

    pub fn as_u128(&self) -> (r: u128)
        ensures
            r == self.value,
    {
        self.value
    }
}

/// Frames sent from a client to the server.
#[derive(Clone, Debug, PartialEq, Eq)]
pub enum ClientFrame {
    NewSession {},
    Write { session_id: SessionId, bytes: Vec<u8> },
}

/// Frames sent from the server to a client.
#[derive(Clone, Debug, PartialEq, Eq)]
pub enum ServerFrame {
    NewSessionAck { session_id: SessionId },
    UpdateState { bytes: Vec<u8> },
}

/// The mathematical content of a `ClientFrame`.
pub enum ClientMessage {
    NewSession,
    Write { session_id: u128, bytes: Seq<u8> },
}

/// The mathematical content of a `ServerFrame`.
pub enum ServerMessage {
    NewSessionAck { session_id: u128 },
    UpdateState { bytes: Seq<u8> },
}

impl View for ClientFrame {
    type V = ClientMessage;

    open spec fn view(&self) -> ClientMessage {
        match self {
            ClientFrame::NewSession {} => ClientMessage::NewSession,
            ClientFrame::Write { session_id, bytes } => ClientMessage::Write {
                session_id: session_id.value,
                bytes: bytes@,
            },
        }
    }
}

impl View for ServerFrame {
    type V = ServerMessage;

    open spec fn view(&self) -> ServerMessage {
        match self {
            ServerFrame::NewSessionAck { session_id } => ServerMessage::NewSessionAck {
                session_id: session_id.value,
            },
            ServerFrame::UpdateState { bytes } => ServerMessage::UpdateState { bytes: bytes@ },
        }
    }
}

/// Why a datagram is not a frame.
#[derive(Clone, Copy, Debug, PartialEq, Eq, Structural)]
pub enum DecodeError {
    /// The datagram holds no byte at all.
    Empty,
    /// The kind byte names no frame of this direction.
    UnknownKind(u8),
    /// The datagram ends before the session id does.
    Truncated,
    /// Bytes follow a frame that has no payload.
    TrailingBytes,
}

/// The bytes of a session id on the wire.
pub open spec fn id_bytes(id: u128) -> Seq<u8> {
    spec_u128_to_le_bytes(id)
}

/// The session id that 16 bytes on the wire stand for.
pub open spec fn id_of_bytes(s: Seq<u8>) -> u128 {
    spec_u128_from_le_bytes(s)
}

/// The datagram that carries a client message.
pub open spec fn client_bytes(m: ClientMessage) -> Seq<u8> {
    match m {
        ClientMessage::NewSession => seq![KIND_NEW_SESSION],
        ClientMessage::Write { session_id, bytes } => seq![KIND_WRITE] + id_bytes(session_id)
            + bytes,
    }
}

/// The datagram that carries a server message.
pub open spec fn server_bytes(m: ServerMessage) -> Seq<u8> {
    match m {
        ServerMessage::NewSessionAck { session_id } => seq![KIND_NEW_SESSION_ACK] + id_bytes(
            session_id,
        ),
        ServerMessage::UpdateState { bytes } => seq![KIND_UPDATE_STATE] + bytes,
    }
}

/// The outcome of reading a datagram as a client frame.
pub open spec fn parse_client(s: Seq<u8>) -> Result<ClientMessage, DecodeError> {
    if s.len() == 0 {
        Err(DecodeError::Empty)
    } else if s[0] == KIND_NEW_SESSION {
        if s.len() == 1 {
            Ok(ClientMessage::NewSession)
        } else {
            Err(DecodeError::TrailingBytes)
        }
    } else if s[0] == KIND_WRITE {
        if s.len() < 1 + SESSION_ID_LEN {
            Err(DecodeError::Truncated)
        } else {
            Ok(
                ClientMessage::Write {
                    session_id: id_of_bytes(s.subrange(1, 1 + SESSION_ID_LEN)),
                    bytes: s.subrange(1 + SESSION_ID_LEN, s.len() as int),
                },
            )
        }
    } else {
        Err(DecodeError::UnknownKind(s[0]))
    }
}

/// The outcome of reading a datagram as a server frame.
pub open spec fn parse_server(s: Seq<u8>) -> Result<ServerMessage, DecodeError> {
    if s.len() == 0 {
        Err(DecodeError::Empty)
    } else if s[0] == KIND_NEW_SESSION_ACK {
        if s.len() < 1 + SESSION_ID_LEN {
            Err(DecodeError::Truncated)
        } else if s.len() > 1 + SESSION_ID_LEN {
            Err(DecodeError::TrailingBytes)
        } else {
            Ok(ServerMessage::NewSessionAck { session_id: id_of_bytes(s.subrange(1, s.len() as int)) })
        }
    } else if s[0] == KIND_UPDATE_STATE {
        Ok(ServerMessage::UpdateState { bytes: s.subrange(1, s.len() as int) })
    } else {
        Err(DecodeError::UnknownKind(s[0]))
    }
}

/// The outcome of a decode, compared with its specification through views.
pub open spec fn decoded_as<T: View>(r: Result<T, DecodeError>, p: Result<T::V, DecodeError>) -> bool {
    match r {
        Ok(f) => p == Ok::<T::V, DecodeError>(f@),
        Err(e) => p == Err::<T::V, DecodeError>(e),
    }
}

/// Decoding the datagram of any client frame gives that frame back, whatever
/// its payload holds (empty, or bytes that are not UTF-8).
pub proof fn lemma_client_round_trip(f: ClientFrame)
    ensures
        parse_client(client_bytes(f@)) == Ok::<ClientMessage, DecodeError>(f@),
{
    lemma_client_round_trip_of(f@);
}

/// Decoding the datagram of a client message gives that message back.
pub proof fn lemma_client_round_trip_of(m: ClientMessage)
    ensures
        parse_client(client_bytes(m)) == Ok::<ClientMessage, DecodeError>(m),
{
    lemma_auto_spec_u128_to_from_le_bytes();
    if let ClientMessage::Write { session_id, bytes } = m {
        let s = client_bytes(m);
        assert(s.subrange(1, 1 + SESSION_ID_LEN) =~= id_bytes(session_id));
        assert(s.subrange(1 + SESSION_ID_LEN, s.len() as int) =~= bytes);
    }
}

/// Decoding the datagram of any server frame gives that frame back, whatever
/// its payload holds (empty, or bytes that are not UTF-8).
pub proof fn lemma_server_round_trip(f: ServerFrame)
    ensures
        parse_server(server_bytes(f@)) == Ok::<ServerMessage, DecodeError>(f@),
{
    lemma_server_round_trip_of(f@);
}

/// Decoding the datagram of a server message gives that message back.
pub proof fn lemma_server_round_trip_of(m: ServerMessage)
    ensures
        parse_server(server_bytes(m)) == Ok::<ServerMessage, DecodeError>(m),
{
    lemma_auto_spec_u128_to_from_le_bytes();
    match m {
        ServerMessage::NewSessionAck { session_id } => {
            let s = server_bytes(m);
            assert(s.subrange(1, s.len() as int) =~= id_bytes(session_id));
        },
        ServerMessage::UpdateState { bytes } => {
            let s = server_bytes(m);
            assert(s.subrange(1, s.len() as int) =~= bytes);
        },
    }
}

/// A datagram whose kind byte names no client frame is refused as
/// `UnknownKind`, carrying that byte.
pub proof fn lemma_client_unknown_kind(s: Seq<u8>)
    requires
        s.len() > 0,
        s[0] != KIND_NEW_SESSION,
        s[0] != KIND_WRITE,
    ensures
        parse_client(s) == Err::<ClientMessage, DecodeError>(DecodeError::UnknownKind(s[0])),
{
}

/// A datagram whose kind byte names no server frame is refused as
/// `UnknownKind`, carrying that byte.
pub proof fn lemma_server_unknown_kind(s: Seq<u8>)
    requires
        s.len() > 0,
        s[0] != KIND_NEW_SESSION_ACK,
        s[0] != KIND_UPDATE_STATE,
    ensures
        parse_server(s) == Err::<ServerMessage, DecodeError>(DecodeError::UnknownKind(s[0])),
{
}

/// Appends `src` to `dst`.
pub(crate) fn append_bytes(dst: &mut Vec<u8>, src: &[u8])
    ensures
        final(dst)@ == old(dst)@ + src@,
{
    let mut i: usize = 0;
    while i < src.len()
        invariant
            i <= src@.len(),
            dst@ == old(dst)@ + src@.subrange(0, i as int),
        decreases src@.len() - i,
    {
        dst.push(src[i]);
        i = i + 1;
        assert(src@.subrange(0, i as int) == src@.subrange(0, i - 1) + seq![src@[i - 1]]);
    }
    assert(src@.subrange(0, src@.len() as int) == src@);
}

impl ClientFrame {
    /// The datagram that carries this frame.
    pub fn encode(&self) -> (r: Vec<u8>)
        ensures
            r@ == client_bytes(self@),
    {
        match self {
            ClientFrame::NewSession {} => {
                let mut r: Vec<u8> = Vec::new();
                r.push(KIND_NEW_SESSION);
                r
            },
            ClientFrame::Write { session_id, bytes } => {
                let mut r: Vec<u8> = Vec::new();
                r.push(KIND_WRITE);
                let id = u128_to_le_bytes(session_id.value);
                append_bytes(&mut r, id.as_slice());
                append_bytes(&mut r, bytes.as_slice());
                r
            },
        }
    }

    /// Reads a datagram as a client frame.
    pub fn decode(b: &[u8]) -> (r: Result<ClientFrame, DecodeError>)
        ensures
            decoded_as(r, parse_client(b@)),
    {
        if b.len() == 0 {
            return Err(DecodeError::Empty);
        }
        let kind = b[0];
        if kind == KIND_NEW_SESSION {
            if b.len() == 1 {
                Ok(ClientFrame::NewSession {})
            } else {
                Err(DecodeError::TrailingBytes)
            }
        } else if kind == KIND_WRITE {
            if b.len() < 1 + SESSION_ID_LEN {
                Err(DecodeError::Truncated)
            } else {
                let value = u128_from_le_bytes(&b[1..1 + SESSION_ID_LEN]);
                let mut bytes: Vec<u8> = Vec::new();
                append_bytes(&mut bytes, &b[1 + SESSION_ID_LEN..b.len()]);
                Ok(ClientFrame::Write { session_id: SessionId { value }, bytes })
            }
        } else {
            Err(DecodeError::UnknownKind(kind))
        }
    }
}

impl ServerFrame {
    /// The datagram that carries this frame.
    pub fn encode(&self) -> (r: Vec<u8>)
        ensures
            r@ == server_bytes(self@),
    {
        match self {
            ServerFrame::NewSessionAck { session_id } => {
                let mut r: Vec<u8> = Vec::new();
                r.push(KIND_NEW_SESSION_ACK);
                let id = u128_to_le_bytes(session_id.value);
                append_bytes(&mut r, id.as_slice());
                r
            },
            ServerFrame::UpdateState { bytes } => {
                let mut r: Vec<u8> = Vec::new();
                r.push(KIND_UPDATE_STATE);
                append_bytes(&mut r, bytes.as_slice());
                r
            },
        }
    }

    /// Reads a datagram as a server frame.
    pub fn decode(b: &[u8]) -> (r: Result<ServerFrame, DecodeError>)
        ensures
            decoded_as(r, parse_server(b@)),
    {
        if b.len() == 0 {
            return Err(DecodeError::Empty);
        }
        let kind = b[0];
        if kind == KIND_NEW_SESSION_ACK {
            if b.len() < 1 + SESSION_ID_LEN {
                Err(DecodeError::Truncated)
            } else if b.len() > 1 + SESSION_ID_LEN {
                Err(DecodeError::TrailingBytes)
            } else {
                let value = u128_from_le_bytes(&b[1..b.len()]);
                Ok(ServerFrame::NewSessionAck { session_id: SessionId { value } })
            }
        } else if kind == KIND_UPDATE_STATE {
            let mut bytes: Vec<u8> = Vec::new();
            append_bytes(&mut bytes, &b[1..b.len()]);
            Ok(ServerFrame::UpdateState { bytes })
        } else {
            Err(DecodeError::UnknownKind(kind))
        }
    }
}

} // verus!
