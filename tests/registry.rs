use better_mosh::dispatch::{Dispatch, Dispatcher};
use better_mosh::frame::{ClientFrame, DecodeError, ServerFrame, SessionId};
use better_mosh::registry::{
    new_inbound_queue, Offer, RegistryError, SessionRegistry, INBOUND_QUEUE_CAPACITY,
    MAX_CHANNEL_CAPACITY,
};

fn write(id: u128, bytes: &[u8]) -> Vec<u8> {
    ClientFrame::Write { session_id: SessionId::new(id), bytes: bytes.to_vec() }.encode()
}

/// Handles a datagram as the server loop does, offering a write's bytes to
/// the queue that the dispatcher chose.
fn deliver(server: &Dispatcher, datagram: &[u8]) -> (Dispatch, Option<Offer>) {
    let d = server.handle(datagram);
    let offer = match &d {
        Dispatch::Write { queue: Some(q), bytes, .. } => Some(server.offer_to(*q, bytes.clone())),
        _ => None,
    };
    (d, offer)
}

#[test]
fn inbound_queue_has_the_session_capacity() {
    let (tx, _rx) = new_inbound_queue();
    assert_eq!(tx.max_capacity(), INBOUND_QUEUE_CAPACITY);
    assert_eq!(INBOUND_QUEUE_CAPACITY, 32);
    assert_eq!(MAX_CHANNEL_CAPACITY, usize::MAX >> 3);
}

#[test]
fn registry_refuses_duplicate_ids() {
    let mut reg = SessionRegistry::new();
    let (tx1, _rx1) = new_inbound_queue();
    let (tx2, _rx2) = new_inbound_queue();
    assert_eq!(reg.insert(5, tx1), Ok(0));
    assert_eq!(reg.insert(5, tx2), Err(RegistryError::DuplicateId));
    assert_eq!(reg.len(), 1);
    assert!(reg.contains(5));
    assert!(!reg.contains(6));
    assert_eq!(reg.queue_of(5), Some(0));
    assert_eq!(reg.queue_of(6), None);
}

#[test]
fn many_sessions_get_distinct_ids_and_writes_reach_only_their_session() {
    let mut server = Dispatcher::new();
    let mut receivers = Vec::new();
    let ids: Vec<u128> = (0..8u128).map(|i| 1000 + i * 7919).collect();
    for &id in &ids {
        assert_eq!(server.handle(&ClientFrame::NewSession {}.encode()), Dispatch::CreateSession);
        let (tx, rx) = new_inbound_queue();
        let ack = server.register(SessionId::new(id), tx).unwrap();
        assert_eq!(ServerFrame::decode(&ack), Ok(ServerFrame::NewSessionAck { session_id: SessionId::new(id) }));
        receivers.push(rx);
    }
    assert_eq!(server.session_count(), ids.len());
    for (k, &id) in ids.iter().enumerate() {
        let (d, offer) = deliver(&server, &write(id, &[k as u8, 0xff]));
        assert_eq!(
            d,
            Dispatch::Write { session_id: SessionId::new(id), queue: Some(k), bytes: vec![k as u8, 0xff] }
        );
        assert_eq!(offer, Some(Offer::Accepted));
    }
    for (k, rx) in receivers.iter_mut().enumerate() {
        assert_eq!(rx.try_recv().unwrap(), vec![k as u8, 0xff]);
        assert!(rx.try_recv().is_err());
    }
}

#[test]
fn writes_keep_their_order_within_a_session() {
    let mut server = Dispatcher::new();
    let (tx, mut rx) = new_inbound_queue();
    server.register(SessionId::new(3), tx).unwrap();
    for b in [b"a".as_slice(), b"bc", b"", b"d"] {
        deliver(&server, &write(3, b));
    }
    assert_eq!(rx.try_recv().unwrap(), b"a".to_vec());
    assert_eq!(rx.try_recv().unwrap(), b"bc".to_vec());
    assert_eq!(rx.try_recv().unwrap(), Vec::<u8>::new());
    assert_eq!(rx.try_recv().unwrap(), b"d".to_vec());
}

#[test]
fn large_payload_reaches_the_queue_intact() {
    let mut server = Dispatcher::new();
    let (tx, mut rx) = new_inbound_queue();
    server.register(SessionId::new(4), tx).unwrap();
    let payload: Vec<u8> = (0..60000u32).map(|i| (i % 251) as u8).collect();
    let (_, offer) = deliver(&server, &write(4, &payload));
    assert_eq!(offer, Some(Offer::Accepted));
    assert_eq!(rx.try_recv().unwrap(), payload);
}

#[test]
fn write_to_unknown_session_is_reported_not_fatal() {
    let server = Dispatcher::new();
    assert_eq!(
        deliver(&server, &write(42, b"x")),
        (Dispatch::Write { session_id: SessionId::new(42), queue: None, bytes: b"x".to_vec() }, None)
    );
}

#[test]
fn empty_and_malformed_datagrams() {
    let server = Dispatcher::new();
    assert_eq!(server.handle(&[]), Dispatch::Ignored);
    assert_eq!(server.handle(&[0x55]), Dispatch::Discarded { error: DecodeError::UnknownKind(0x55) });
    assert_eq!(server.handle(&[0x02, 1]), Dispatch::Discarded { error: DecodeError::Truncated });
}

#[test]
fn full_queue_drops_without_blocking() {
    let mut server = Dispatcher::new();
    let (tx, _rx) = new_inbound_queue();
    server.register(SessionId::new(9), tx).unwrap();
    for _ in 0..INBOUND_QUEUE_CAPACITY {
        assert_eq!(deliver(&server, &write(9, b"k")).1, Some(Offer::Accepted));
    }
    assert_eq!(deliver(&server, &write(9, b"k")).1, Some(Offer::Full));
}

#[test]
fn ended_session_does_not_affect_others() {
    let mut server = Dispatcher::new();
    let (tx1, rx1) = new_inbound_queue();
    let (tx2, mut rx2) = new_inbound_queue();
    server.register(SessionId::new(1), tx1).unwrap();
    server.register(SessionId::new(2), tx2).unwrap();
    drop(rx1);
    assert_eq!(deliver(&server, &write(1, b"exit\n")).1, Some(Offer::Closed));
    assert_eq!(deliver(&server, &write(2, b"ls\n")).1, Some(Offer::Accepted));
    assert_eq!(rx2.try_recv().unwrap(), b"ls\n".to_vec());
}

#[test]
fn duplicate_registration_sends_no_second_ack() {
    let mut server = Dispatcher::new();
    let (tx1, _rx1) = new_inbound_queue();
    let (tx2, _rx2) = new_inbound_queue();
    assert!(server.register(SessionId::new(77), tx1).is_ok());
    assert_eq!(server.register(SessionId::new(77), tx2), Err(RegistryError::DuplicateId));
    assert_eq!(server.session_count(), 1);
    assert_eq!(deliver(&server, &write(77, b"q")).0, Dispatch::Write {
        session_id: SessionId::new(77),
        queue: Some(0),
        bytes: b"q".to_vec()
    });
}
