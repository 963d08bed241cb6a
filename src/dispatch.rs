//! The server's decisions on each received datagram.
//!
//! The server loop receives a datagram and hands it to `Dispatcher::handle`,
//! which says what to do: nothing, discard it, create a session, or offer a
//! `Write` frame's bytes to the inbound queue of the session it names, with
//! `Dispatcher::offer_to`. Creating a session needs the operating system;
//! once the caller has one, it registers the session's queue with
//! `Dispatcher::register` and sends the acknowledgement datagram that call
//! returns.

use crate::frame::{
    parse_client, server_bytes, ClientFrame, ClientMessage, DecodeError, ServerFrame,
    ServerMessage, SessionId,
};
use crate::registry::{InboundSender, Offer, RegistryError, SessionRegistry};
use vstd::prelude::*;

verus! {

/// What the server does with one received datagram.
#[derive(Clone, Debug, PartialEq, Eq)]
pub enum Dispatch {
    /// A zero-length datagram: nothing to do.
    Ignored,
    /// Not a client frame: it is logged and dropped, and the loop goes on.
    Discarded { error: DecodeError },
    /// A `NewSession` frame: the caller creates a session and registers it.
    CreateSession,
    /// A `Write` frame: `bytes` go to inbound queue `queue` of the session
    /// named, or are dropped where no session has that id. No frame is sent
    /// back for it.
    Write { session_id: SessionId, queue: Option<usize>, bytes: Vec<u8> },
}

/// What `handle` owes for a datagram, given the sessions registered.
pub open spec fn dispatch_of(reg: SessionRegistry, datagram: Seq<u8>, d: Dispatch) -> bool {
    match parse_client(datagram) {
        Err(DecodeError::Empty) => d == Dispatch::Ignored,
        Err(error) => d == Dispatch::Discarded { error },
        Ok(ClientMessage::NewSession) => d == Dispatch::CreateSession,
        Ok(ClientMessage::Write { session_id, bytes }) => match d {
            Dispatch::Write { session_id: s, queue, bytes: b } => {
                &&& s.value == session_id
                &&& b@ == bytes
                &&& queue == (if reg.sessions().contains(session_id) {
                    Some(reg.entries()[session_id])
                } else {
                    None::<usize>
                })
            },
            _ => false,
        },
    }
}

/// The server's routing state: the registry of its sessions.
pub struct Dispatcher {
    sessions: SessionRegistry,
}

impl Dispatcher {
    /// The registry of sessions.
    pub closed spec fn registry(&self) -> SessionRegistry {
        self.sessions
    }

    pub open spec fn wf(&self) -> bool {
        self.registry().wf()
    }

    pub fn new() -> (r: Dispatcher)
        ensures
            r.wf(),
            r.registry().sessions() == Set::<u128>::empty(),
    {
        Dispatcher { sessions: SessionRegistry::new() }
    }

    /// Number of sessions created so far.
    pub fn session_count(&self) -> (r: usize)
        requires
            self.wf(),
        ensures
            r == self.registry().sessions().len(),
    {
        self.sessions.len()
    }

    /// Decides what to do with one received datagram.
    pub fn handle(&self, datagram: &[u8]) -> (r: Dispatch)
        requires
            self.wf(),
        ensures
            dispatch_of(self.registry(), datagram@, r),
    {
        match ClientFrame::decode(datagram) {
            Err(DecodeError::Empty) => Dispatch::Ignored,
            Err(error) => Dispatch::Discarded { error },
            Ok(ClientFrame::NewSession {}) => Dispatch::CreateSession,
            Ok(ClientFrame::Write { session_id, bytes }) => {
                let queue = self.sessions.queue_of(session_id.value);
                Dispatch::Write { session_id, queue, bytes }
            },
        }
    }

    /// Offers a `Write` frame's bytes to inbound queue `queue`, without
    /// waiting, so a full queue never holds up the other sessions.
    pub fn offer_to(&self, queue: usize, bytes: Vec<u8>) -> (r: Offer)
        requires
            self.wf(),
            queue < self.registry().sessions().len(),
    {
        self.sessions.offer_to(queue, bytes)
    }

    /// Registers a freshly created session under `id` and returns the
    /// `NewSessionAck` datagram to send to its client. An id already in use is
    /// refused and nothing changes; otherwise the new session gets the next
    /// queue number and every other session keeps its own.
    pub fn register(&mut self, id: SessionId, tx: InboundSender) -> (r: Result<Vec<u8>, RegistryError>)
        requires
            old(self).wf(),
        ensures
            final(self).wf(),
            old(self).registry().sessions().contains(id.value) <==> r is Err,
            r is Err ==> final(self).registry().entries() == old(self).registry().entries(),
            r is Ok ==> final(self).registry().entries() == old(self).registry().entries().insert(
                id.value,
                old(self).registry().sessions().len() as usize,
            ),
            r is Ok ==> final(self).registry().sessions() == old(
                self,
            ).registry().sessions().insert(id.value),
            r is Ok ==> final(self).registry().sessions().len() == old(
                self,
            ).registry().sessions().len() + 1,
            r is Ok ==> r->Ok_0@ == server_bytes(ServerMessage::NewSessionAck { session_id: id.value }),
    {
        match self.sessions.insert(id.value, tx) {
            Err(e) => Err(e),
            Ok(_) => {
                proof {
                    assert(self.registry().sessions() =~= old(self).registry().sessions().insert(
                        id.value,
                    ));
                }
                let ack = ServerFrame::NewSessionAck { session_id: id };
                Ok(ack.encode())
            },
        }
    }
}

/// The queue that a dispatch sends bytes to, if it sends them anywhere.
pub open spec fn target_queue(d: Dispatch) -> Option<usize> {
    match d {
        Dispatch::Write { queue, .. } => queue,
        _ => None,
    }
}

/// Two `Write` frames that name different sessions never have their bytes
/// sent to the same queue, and each carries its own frame's payload: a write
/// reaches only the session it names, with its bytes as they were sent.
pub proof fn lemma_writes_reach_only_their_session(
    d: Dispatcher,
    a: Seq<u8>,
    b: Seq<u8>,
    ra: Dispatch,
    rb: Dispatch,
)
    requires
        d.wf(),
        dispatch_of(d.registry(), a, ra),
        dispatch_of(d.registry(), b, rb),
        parse_client(a) is Ok && parse_client(a)->Ok_0 is Write,
        parse_client(b) is Ok && parse_client(b)->Ok_0 is Write,
        parse_client(a)->Ok_0->Write_session_id != parse_client(b)->Ok_0->Write_session_id,
        target_queue(ra) is Some,
        target_queue(rb) is Some,
    ensures
        target_queue(ra) != target_queue(rb),
        ra->Write_bytes@ == parse_client(a)->Ok_0->Write_bytes,
        rb->Write_bytes@ == parse_client(b)->Ok_0->Write_bytes,
{
    let ia = parse_client(a)->Ok_0->Write_session_id;
    let ib = parse_client(b)->Ok_0->Write_session_id;
    assert(d.registry().entries()[ia] != d.registry().entries()[ib]);
}

} // verus!
