use better_mosh::frame::{
    ClientFrame, DecodeError, ServerFrame, SessionId, KIND_NEW_SESSION, KIND_NEW_SESSION_ACK,
    KIND_UPDATE_STATE, KIND_WRITE,
};

#[test]
fn it_works() {
    assert_eq!(2 + 2, 4);
}

fn id() -> SessionId {
    SessionId::new(0x0102_0304_0506_0708_090a_0b0c_0d0e_0f10)
}

#[test]
fn client_frames_round_trip() {
    let frames = vec![
        ClientFrame::NewSession {},
        ClientFrame::Write { session_id: id(), bytes: vec![] },
        ClientFrame::Write { session_id: id(), bytes: b"hello\n".to_vec() },
        ClientFrame::Write { session_id: SessionId::new(u128::MAX), bytes: vec![0xff, 0xfe, 0x00, 0xc3] },
    ];
    for f in frames {
        assert_eq!(ClientFrame::decode(&f.encode()), Ok(f.clone()));
    }
}

#[test]
fn server_frames_round_trip() {
    let frames = vec![
        ServerFrame::NewSessionAck { session_id: id() },
        ServerFrame::NewSessionAck { session_id: SessionId::new(0) },
        ServerFrame::UpdateState { bytes: vec![] },
        ServerFrame::UpdateState { bytes: vec![0x80, 0x81, 0xff, 0x00] },
    ];
    for f in frames {
        assert_eq!(ServerFrame::decode(&f.encode()), Ok(f.clone()));
    }
}

#[test]
fn write_frame_layout() {
    let f = ClientFrame::Write { session_id: id(), bytes: vec![0xaa, 0xbb] };
    let mut expected = vec![KIND_WRITE];
    expected.extend_from_slice(&[0x10, 0x0f, 0x0e, 0x0d, 0x0c, 0x0b, 0x0a, 0x09]);
    expected.extend_from_slice(&[0x08, 0x07, 0x06, 0x05, 0x04, 0x03, 0x02, 0x01]);
    expected.extend_from_slice(&[0xaa, 0xbb]);
    assert_eq!(f.encode(), expected);
    assert_eq!(ClientFrame::NewSession {}.encode(), vec![KIND_NEW_SESSION]);
}

#[test]
fn server_frame_layout() {
    let ack = ServerFrame::NewSessionAck { session_id: SessionId::new(1) };
    let mut expected = vec![KIND_NEW_SESSION_ACK, 1];
    expected.extend_from_slice(&[0; 15]);
    assert_eq!(ack.encode(), expected);
    let update = ServerFrame::UpdateState { bytes: b"ok".to_vec() };
    assert_eq!(update.encode(), vec![KIND_UPDATE_STATE, b'o', b'k']);
}

#[test]
fn unknown_kind_is_refused() {
    assert_eq!(ClientFrame::decode(&[0x7f, 1, 2]), Err(DecodeError::UnknownKind(0x7f)));
    assert_eq!(ClientFrame::decode(&[KIND_UPDATE_STATE]), Err(DecodeError::UnknownKind(KIND_UPDATE_STATE)));
    assert_eq!(ServerFrame::decode(&[KIND_WRITE, 0]), Err(DecodeError::UnknownKind(KIND_WRITE)));
    assert_eq!(ServerFrame::decode(b"{\"type\":\"x\"}"), Err(DecodeError::UnknownKind(b'{')));
}

#[test]
fn malformed_datagrams_are_refused() {
    assert_eq!(ClientFrame::decode(&[]), Err(DecodeError::Empty));
    assert_eq!(ServerFrame::decode(&[]), Err(DecodeError::Empty));
    assert_eq!(ClientFrame::decode(&[KIND_NEW_SESSION, 0]), Err(DecodeError::TrailingBytes));
    assert_eq!(ClientFrame::decode(&[KIND_WRITE, 1, 2, 3]), Err(DecodeError::Truncated));
    assert_eq!(ServerFrame::decode(&[KIND_NEW_SESSION_ACK; 5]), Err(DecodeError::Truncated));
    assert_eq!(ServerFrame::decode(&[KIND_NEW_SESSION_ACK; 18]), Err(DecodeError::TrailingBytes));
}

#[test]
fn write_with_exactly_an_id_has_empty_payload() {
    let mut d = vec![KIND_WRITE];
    d.extend_from_slice(&[7; 16]);
    assert_eq!(
        ClientFrame::decode(&d),
        Ok(ClientFrame::Write { session_id: SessionId::new(u128::from_le_bytes([7; 16])), bytes: vec![] })
    );
}
