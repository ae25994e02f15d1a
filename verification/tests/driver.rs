use rust_kvstore::driver::{ConnectionDriver, Phase};

fn connect() -> (ConnectionDriver, ConnectionDriver) {
    let mut initiator = ConnectionDriver::new(true).unwrap();
    let mut responder = ConnectionDriver::new(false).unwrap();
    let mut to_responder = Vec::new();
    let mut to_initiator = Vec::new();
    let mut delivered_i: Vec<Vec<u8>> = Vec::new();
    let mut delivered_r: Vec<Vec<u8>> = Vec::new();

    initiator.start(&mut to_responder).unwrap();
    responder.start(&mut to_initiator).unwrap();
    assert!(to_initiator.is_empty());

    let m1 = to_responder.clone();
    to_responder.clear();
    responder.on_bytes(&m1, &mut to_initiator, &mut delivered_r).unwrap();
    assert_eq!(responder.current_phase(), Phase::HandshakeInProgress);

    let m2 = to_initiator.clone();
    to_initiator.clear();
    initiator.on_bytes(&m2, &mut to_responder, &mut delivered_i).unwrap();
    assert_eq!(initiator.current_phase(), Phase::Transport);

    let m3 = to_responder.clone();
    to_responder.clear();
    responder.on_bytes(&m3, &mut to_initiator, &mut delivered_r).unwrap();
    assert_eq!(responder.current_phase(), Phase::Transport);

    assert!(delivered_i.is_empty());
    assert!(delivered_r.is_empty());
    assert!(to_initiator.is_empty());
    (initiator, responder)
}

#[test]
fn handshake_completion() {
    let (initiator, responder) = connect();
    assert_eq!(initiator.current_phase(), Phase::Transport);
    assert_eq!(responder.current_phase(), Phase::Transport);
}

#[test]
fn relay_both_ways() {
    let (mut initiator, mut responder) = connect();
    let mut wire = Vec::new();
    let mut delivered: Vec<Vec<u8>> = Vec::new();
    let mut replies = Vec::new();

    initiator.send(&b"ping".to_vec(), &mut wire).unwrap();
    responder.on_bytes(&wire, &mut replies, &mut delivered).unwrap();
    assert_eq!(delivered, vec![b"ping".to_vec()]);
    assert!(replies.is_empty());

    let mut wire = Vec::new();
    let mut delivered: Vec<Vec<u8>> = Vec::new();
    responder.send(&b"pong".to_vec(), &mut wire).unwrap();
    initiator.on_bytes(&wire, &mut replies, &mut delivered).unwrap();
    assert_eq!(delivered, vec![b"pong".to_vec()]);
}

#[test]
fn relay_across_arbitrary_chunks() {
    let (mut initiator, mut responder) = connect();
    let mut wire = Vec::new();
    initiator.send(&b"first".to_vec(), &mut wire).unwrap();
    initiator.send(&b"second".to_vec(), &mut wire).unwrap();
    let mut delivered: Vec<Vec<u8>> = Vec::new();
    let mut replies = Vec::new();
    for piece in wire.chunks(5) {
        responder.on_bytes(&piece.to_vec(), &mut replies, &mut delivered).unwrap();
    }
    assert_eq!(delivered, vec![b"first".to_vec(), b"second".to_vec()]);
}

#[test]
fn oversized_send_is_not_fatal() {
    let (mut initiator, mut responder) = connect();
    let mut wire = Vec::new();
    let r = initiator.send(&vec![0u8; 65536], &mut wire);
    assert!(r.is_err());
    assert!(wire.is_empty());
    assert_eq!(initiator.current_phase(), Phase::Transport);

    initiator.send(&b"after".to_vec(), &mut wire).unwrap();
    let mut delivered: Vec<Vec<u8>> = Vec::new();
    let mut replies = Vec::new();
    responder.on_bytes(&wire, &mut replies, &mut delivered).unwrap();
    assert_eq!(delivered, vec![b"after".to_vec()]);
}

#[test]
fn tampered_frame_closes_connection() {
    let (mut initiator, mut responder) = connect();
    let mut wire = Vec::new();
    initiator.send(&b"secret".to_vec(), &mut wire).unwrap();
    let last = wire.len() - 1;
    wire[last] ^= 0x01;
    let mut delivered: Vec<Vec<u8>> = Vec::new();
    let mut replies = Vec::new();
    let r = responder.on_bytes(&wire, &mut replies, &mut delivered);
    assert!(r.is_err());
    assert!(delivered.is_empty());
    assert_eq!(responder.current_phase(), Phase::Closed);
}
