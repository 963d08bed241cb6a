//! The session registry: which session a session id names, and the inbound
//! queue of each session.
//!
//! Ids map to queue numbers in a `DashMap`; the queues themselves, the
//! sending ends of bounded tokio channels, sit in a vector under those
//! numbers. Each session gets its own queue number, so a write routed by id
//! reaches the queue of that session and no other.
//!
//! Entries are never removed. A write for a session that has ended still
//! finds its queue, and learns from the offer that the queue is closed.

use dashmap::DashMap;
use tokio::sync::mpsc::error::TrySendError;
use tokio::sync::mpsc::{Receiver, Sender};
use vstd::prelude::*;

verus! {

#[verifier::external_type_specification]
#[verifier::external_body]
#[verifier::reject_recursive_types(K)]
#[verifier::reject_recursive_types(V)]
#[verifier::reject_recursive_types(S)]
pub struct ExDashMap<K, V, S>(DashMap<K, V, S>);

#[verifier::external_type_specification]
#[verifier::external_body]
#[verifier::reject_recursive_types(T)]
pub struct ExSender<T>(Sender<T>);

#[verifier::external_type_specification]
#[verifier::external_body]
#[verifier::reject_recursive_types(T)]
pub struct ExReceiver<T>(Receiver<T>);

/// A concurrent map from session ids to queue numbers.
pub type SessionIndex = DashMap<u128, usize>;

/// What a map from session ids to queue numbers holds.
pub uninterp spec fn index_entries(m: SessionIndex) -> Map<u128, usize>;

/// The contents of an empty index.
pub open spec fn no_entries() -> Map<u128, usize> {
    Map::empty()
}

/// Relies on `DashMap::new`: the new map is empty.
#[verifier::external_body]
fn index_new() -> (r: SessionIndex)
    ensures
        index_entries(r) == no_entries(),
{
    DashMap::new()
}

/// Relies on `DashMap::insert`: the key maps to the value afterwards, other
/// keys keep theirs, and the value the key had before is returned.
#[verifier::external_body]
fn index_insert(m: &mut SessionIndex, key: u128, value: usize) -> (r: Option<usize>)
    ensures
        index_entries(*final(m)) == index_entries(*old(m)).insert(key, value),
        r == (if index_entries(*old(m)).contains_key(key) {
            Some(index_entries(*old(m))[key])
        } else {
            None::<usize>
        }),
{
    m.insert(key, value)
}

/// Relies on `DashMap::get`: the value under the key, if there is one.
#[verifier::external_body]
fn index_get(m: &SessionIndex, key: u128) -> (r: Option<usize>)
    ensures
        r == (if index_entries(*m).contains_key(key) {
            Some(index_entries(*m)[key])
        } else {
            None::<usize>
        }),
{
    m.get(&key).map(|entry| *entry.value())
}

/// The sending end of a session's inbound queue.
pub type InboundSender = Sender<Vec<u8>>;

/// The receiving end of a session's inbound queue.
pub type InboundReceiver = Receiver<Vec<u8>>;

/// The capacity that a bounded channel was made with.
pub uninterp spec fn queue_bound(tx: InboundSender) -> nat;

/// The largest capacity a tokio channel accepts (`Semaphore::MAX_PERMITS`).
pub const MAX_CHANNEL_CAPACITY: usize = usize::MAX >> 3;

/// Relies on `tokio::sync::mpsc::channel`: a bounded channel that holds at
/// most `capacity` pending chunks; it panics on a capacity of zero or one
/// above `MAX_CHANNEL_CAPACITY`.
#[verifier::external_body]
fn bounded_channel(capacity: usize) -> (r: (InboundSender, InboundReceiver))
    requires
        0 < capacity <= MAX_CHANNEL_CAPACITY,
    ensures
        queue_bound(r.0) == capacity,
{
    tokio::sync::mpsc::channel(capacity)
}

/// How many chunks a session's inbound queue holds before a sender must wait.
pub const INBOUND_QUEUE_CAPACITY: usize = 32;

/// A new inbound queue for a session: its sending end goes to the registry,
/// its receiving end to the session's writer loop.
pub fn new_inbound_queue() -> (r: (InboundSender, InboundReceiver))
    ensures
        queue_bound(r.0) == INBOUND_QUEUE_CAPACITY,
{
    proof {
        let max = usize::MAX;
        assert(max >= 0xffff_ffff);
        assert(32usize <= max >> 3usize) by (bit_vector)
            requires
                max >= 0xffff_ffffusize,
        ;
    }
    bounded_channel(INBOUND_QUEUE_CAPACITY)
}

/// What became of a chunk offered to a queue without waiting.
#[derive(Clone, Copy, Debug, PartialEq, Eq, Structural)]
pub enum Offer {
    /// The chunk is in the queue.
    Accepted,
    /// The queue is at its capacity; the chunk was dropped.
    Full,
    /// The receiving end is gone; the chunk was dropped.
    Closed,
}

/// Relies on `Sender::try_send`: enqueues without waiting, or reports a full
/// or closed channel. Which of the three happens depends on the other tasks.
#[verifier::external_body]
fn offer(tx: &InboundSender, chunk: Vec<u8>) -> (r: Offer) {
    match tx.try_send(chunk) {
        Ok(()) => Offer::Accepted,
        Err(TrySendError::Full(_)) => Offer::Full,
        Err(TrySendError::Closed(_)) => Offer::Closed,
    }
}

/// Why a session could not be registered.
#[derive(Clone, Copy, Debug, PartialEq, Eq, Structural)]
pub enum RegistryError {
    /// The id already names a session; the registry is left as it was.
    DuplicateId,
}

pub struct SessionRegistry {
    index: SessionIndex,
    queues: Vec<InboundSender>,
}

impl SessionRegistry {
    /// Queue number of each registered session id.
    pub closed spec fn entries(&self) -> Map<u128, usize> {
        index_entries(self.index)
    }

    /// The ids of the registered sessions.
    pub open spec fn sessions(&self) -> Set<u128> {
        self.entries().dom()
    }

    /// Number of queues held.
    pub closed spec fn queue_count(&self) -> nat {
        self.queues@.len()
    }

    /// Every registered id has a queue of its own, and every queue belongs
    /// to a registered id.
    pub open spec fn wf(&self) -> bool {
        &&& self.sessions().finite()
        &&& self.sessions().len() == self.queue_count()
        &&& forall|id: u128| #[trigger]
            self.sessions().contains(id) ==> self.entries()[id] < self.queue_count()
        &&& forall|a: u128, b: u128|
            #![trigger self.entries()[a], self.entries()[b]]
            self.sessions().contains(a) && self.sessions().contains(b) && a != b
                ==> self.entries()[a] != self.entries()[b]
    }

    pub fn new() -> (r: SessionRegistry)
        ensures
            r.wf(),
            r.sessions() == Set::<u128>::empty(),
    {
        let r = SessionRegistry { index: index_new(), queues: Vec::new() };
        assert(r.sessions() =~= Set::<u128>::empty());
        r
    }

    /// Number of registered sessions.
    pub fn len(&self) -> (r: usize)
        requires
            self.wf(),
        ensures
            r == self.sessions().len(),
    {
        self.queues.len()
    }

    /// Whether `id` names a registered session.
    pub fn contains(&self, id: u128) -> (r: bool)
        ensures
            r == self.sessions().contains(id),
    {
        index_get(&self.index, id).is_some()
    }

    /// The queue number of the session that `id` names.
    pub fn queue_of(&self, id: u128) -> (r: Option<usize>)
        ensures
            r == (if self.sessions().contains(id) {
                Some(self.entries()[id])
            } else {
                None::<usize>
            }),
    {
        index_get(&self.index, id)
    }

    /// Registers a new session under `id`, with the sending end of its inbound
    /// queue. An id that is already registered is refused, never overwritten.
    pub fn insert(&mut self, id: u128, tx: InboundSender) -> (r: Result<usize, RegistryError>)
        requires
            old(self).wf(),
        ensures
            final(self).wf(),
            old(self).sessions().contains(id) <==> r == Err::<usize, RegistryError>(
                RegistryError::DuplicateId,
            ),
            r is Err ==> final(self).entries() == old(self).entries(),
            r is Ok ==> r->Ok_0 == old(self).sessions().len(),
            r is Ok ==> final(self).entries() == old(self).entries().insert(id, r->Ok_0),
            r is Ok ==> forall|other: u128| #[trigger]
                old(self).sessions().contains(other) ==> old(self).entries()[other]
                    != r->Ok_0,
    {
        if index_get(&self.index, id).is_some() {
            return Err(RegistryError::DuplicateId);
        }
        let queue = self.queues.len();
        self.queues.push(tx);
        let _ = index_insert(&mut self.index, id, queue);
        proof {
            let o = old(self).entries();
            let n = self.entries();
            assert(self.sessions() =~= old(self).sessions().insert(id));
            assert forall|a: u128, b: u128|
                self.sessions().contains(a) && self.sessions().contains(b) && a != b implies
                #[trigger] n[a] != #[trigger] n[b] by {
                if a != id && b != id {
                    assert(o[a] != o[b]);
                }
            }
        }
        Ok(queue)
    }

    /// Offers `chunk` to inbound queue number `queue`, without waiting.
    pub fn offer_to(&self, queue: usize, chunk: Vec<u8>) -> (r: Offer)
        requires
            self.wf(),
            queue < self.sessions().len(),
    {
        offer(&self.queues[queue], chunk)
    }
}

/// Two different registered sessions never share an inbound queue, so a
/// chunk routed by one id cannot reach the session of another.
pub proof fn lemma_distinct_sessions_distinct_queues(reg: SessionRegistry, a: u128, b: u128)
    requires
        reg.wf(),
        reg.sessions().contains(a),
        reg.sessions().contains(b),
        a != b,
    ensures
        reg.entries()[a] != reg.entries()[b],
{
}

} // verus!
