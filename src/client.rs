//! The client's side of a session: `Disconnected`, then `Handshaking` once
//! `NewSession` is sent, then `Connected` once the server's
//! `NewSessionAck` names the session. Any other first reply is a protocol
//! violation.

use crate::dispatch::{dispatch_of, Dispatch};
use crate::frame::{
    append_bytes, client_bytes, parse_server, server_bytes, ClientFrame, ClientMessage, DecodeError,
    ServerFrame, ServerMessage, SessionId,
};
use crate::registry::SessionRegistry;
use vstd::prelude::*;

verus! {

/// Where the client stands.
#[derive(Clone, Copy, Debug, PartialEq, Eq, Structural)]
pub enum ClientState {
    Disconnected,
    Handshaking,
    Connected { session_id: SessionId },
}

/// What went wrong on the client's side of the protocol.
#[derive(Clone, Copy, Debug, PartialEq, Eq, Structural)]
pub enum ClientError {
    /// The datagram is not a server frame.
    Decode(DecodeError),
    /// A frame arrived that the current state does not admit.
    UnexpectedFrame,
    /// The call does not fit the current state.
    WrongState,
}

/// What a reply to `NewSession` makes of the handshake.
pub open spec fn handshake_outcome(reply: Seq<u8>) -> Result<u128, ClientError> {
    match parse_server(reply) {
        Ok(ServerMessage::NewSessionAck { session_id }) => Ok(session_id),
        Ok(ServerMessage::UpdateState { .. }) => Err(ClientError::UnexpectedFrame),
        Err(e) => Err(ClientError::Decode(e)),
    }
}

/// What a datagram received while connected gives to the display.
pub open spec fn update_outcome(datagram: Seq<u8>) -> Result<Seq<u8>, ClientError> {
    match parse_server(datagram) {
        Ok(ServerMessage::UpdateState { bytes }) => Ok(bytes),
        Ok(ServerMessage::NewSessionAck { .. }) => Err(ClientError::UnexpectedFrame),
        Err(e) => Err(ClientError::Decode(e)),
    }
}

#[derive(Clone, Copy, Debug)]
pub struct Client {
    pub state: ClientState,
}

impl Client {
    pub fn new() -> (r: Client)
        ensures
            r.state == ClientState::Disconnected,
    {
        Client { state: ClientState::Disconnected }
    }

    /// The session id, once connected.
    pub fn session_id(&self) -> (r: Option<SessionId>)
        ensures
            r == (match self.state {
                ClientState::Connected { session_id } => Some(session_id),
                _ => None::<SessionId>,
            }),
    {
        match self.state {
            ClientState::Connected { session_id } => Some(session_id),
            _ => None,
        }
    }

    /// Starts the handshake: returns the `NewSession` datagram to send.
    pub fn start_handshake(&mut self) -> (r: Result<Vec<u8>, ClientError>)
        ensures
            old(self).state == ClientState::Disconnected <==> r is Ok,
            r matches Ok(d) ==> d@ == client_bytes(ClientMessage::NewSession) && final(self).state
                == ClientState::Handshaking,
            r is Err ==> r == Err::<Vec<u8>, ClientError>(ClientError::WrongState),
            r is Err ==> final(self).state == old(self).state,
    {
        match self.state {
            ClientState::Disconnected => {
                self.state = ClientState::Handshaking;
                Ok(ClientFrame::NewSession {  }.encode())
            },
            _ => Err(ClientError::WrongState),
        }
    }

    /// Takes the server's reply to `NewSession`. Only `NewSessionAck`
    /// completes the handshake; anything else leaves the client disconnected.
    pub fn finish_handshake(&mut self, reply: &[u8]) -> (r: Result<SessionId, ClientError>)
        ensures
            old(self).state != ClientState::Handshaking ==> r == Err::<SessionId, ClientError>(
                ClientError::WrongState,
            ) && final(self).state == old(self).state,
            old(self).state == ClientState::Handshaking ==> match handshake_outcome(reply@) {
                Ok(id) => r == Ok::<SessionId, ClientError>(SessionId { value: id })
                    && final(self).state == ClientState::Connected {
                    session_id: SessionId { value: id },
                },
                Err(e) => r == Err::<SessionId, ClientError>(e) && final(self).state
                    == ClientState::Disconnected,
            },
    {
        if self.state != ClientState::Handshaking {
            return Err(ClientError::WrongState);
        }
        match ServerFrame::decode(reply) {
            Ok(ServerFrame::NewSessionAck { session_id }) => {
                self.state = ClientState::Connected { session_id };
                Ok(session_id)
            },
            Ok(ServerFrame::UpdateState { .. }) => {
                self.state = ClientState::Disconnected;
                Err(ClientError::UnexpectedFrame)
            },
            Err(e) => {
                self.state = ClientState::Disconnected;
                Err(ClientError::Decode(e))
            },
        }
    }

    /// The `Write` datagram that carries captured input to the session.
    pub fn input(&self, bytes: &[u8]) -> (r: Result<Vec<u8>, ClientError>)
        ensures
            match self.state {
                ClientState::Connected { session_id } => r matches Ok(d) && d@ == client_bytes(
                    ClientMessage::Write { session_id: session_id.value, bytes: bytes@ },
                ),
                _ => r == Err::<Vec<u8>, ClientError>(ClientError::WrongState),
            },
    {
        match self.state {
            ClientState::Connected { session_id } => {
                let mut payload: Vec<u8> = Vec::new();
                append_bytes(&mut payload, bytes);
                assert(payload@ =~= bytes@);
                Ok(ClientFrame::Write { session_id, bytes: payload }.encode())
            },
            _ => Err(ClientError::WrongState),
        }
    }

    /// Takes a datagram received while connected: the terminal output it
    /// carries, to be appended to the display.
    pub fn receive(&self, datagram: &[u8]) -> (r: Result<Vec<u8>, ClientError>)
        ensures
            !(self.state is Connected) ==> r == Err::<Vec<u8>, ClientError>(ClientError::WrongState),
            self.state is Connected ==> match update_outcome(datagram@) {
                Ok(bytes) => r matches Ok(b) && b@ == bytes,
                Err(e) => r == Err::<Vec<u8>, ClientError>(e),
            },
    {
        if !matches!(self.state, ClientState::Connected { .. }) {
            return Err(ClientError::WrongState);
        }
        match ServerFrame::decode(datagram) {
            Ok(ServerFrame::UpdateState { bytes }) => Ok(bytes),
            Ok(ServerFrame::NewSessionAck { .. }) => Err(ClientError::UnexpectedFrame),
            Err(e) => Err(ClientError::Decode(e)),
        }
    }
}

/// The handshake: the client's `NewSession` datagram makes the server create
/// a session, whatever sessions it already has, and the acknowledgement the
/// server sends for the id it registered connects the client to that id.
pub proof fn lemma_handshake(reg: SessionRegistry, id: u128, d: Dispatch)
    requires
        dispatch_of(reg, client_bytes(ClientMessage::NewSession), d),
    ensures
        d == Dispatch::CreateSession,
        handshake_outcome(server_bytes(ServerMessage::NewSessionAck { session_id: id }))
            == Ok::<u128, ClientError>(id),
{
    crate::frame::lemma_client_round_trip_of(ClientMessage::NewSession);
    crate::frame::lemma_server_round_trip_of(ServerMessage::NewSessionAck { session_id: id });
}

} // verus!
