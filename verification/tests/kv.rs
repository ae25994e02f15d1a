use rust_kvstore::driver::ConnectionDriver;
use rust_kvstore::server::{Command, Response, ServerState};

fn encode_get(key: &str) -> Vec<u8> {
    let mut out = vec![0u8];
    out.extend_from_slice(&(key.len() as u16).to_be_bytes());
    out.extend_from_slice(key.as_bytes());
    out
}

fn encode_put(key: &str, value: &[u8]) -> Vec<u8> {
    let mut out = vec![1u8];
    out.extend_from_slice(&(key.len() as u16).to_be_bytes());
    out.extend_from_slice(key.as_bytes());
    out.extend_from_slice(value);
    out
}

fn parse_request(bytes: &[u8]) -> Command {
    let key_len = u16::from_be_bytes([bytes[1], bytes[2]]) as usize;
    let key = String::from_utf8(bytes[3..3 + key_len].to_vec()).unwrap();
    match bytes[0] {
        0 => Command::Get { key },
        _ => Command::Put { key, value: bytes[3 + key_len..].to_vec() },
    }
}

fn encode_response(resp: &Response) -> Vec<u8> {
    let mut out = vec![if resp.value.is_some() { 1u8 } else { 0u8 }];
    out.extend_from_slice(&(resp.key.len() as u16).to_be_bytes());
    out.extend_from_slice(resp.key.as_bytes());
    if let Some(v) = &resp.value {
        out.extend_from_slice(v);
    }
    out
}

fn parse_response(bytes: &[u8]) -> (String, Option<Vec<u8>>) {
    let key_len = u16::from_be_bytes([bytes[1], bytes[2]]) as usize;
    let key = String::from_utf8(bytes[3..3 + key_len].to_vec()).unwrap();
    let value = if bytes[0] == 1 { Some(bytes[3 + key_len..].to_vec()) } else { None };
    (key, value)
}

fn connect() -> (ConnectionDriver, ConnectionDriver) {
    let mut initiator = ConnectionDriver::new(true).unwrap();
    let mut responder = ConnectionDriver::new(false).unwrap();
    let mut to_responder = Vec::new();
    let mut to_initiator = Vec::new();
    let mut delivered: Vec<Vec<u8>> = Vec::new();
    initiator.start(&mut to_responder).unwrap();
    responder.start(&mut to_initiator).unwrap();
    responder.on_bytes(&to_responder, &mut to_initiator, &mut delivered).unwrap();
    let mut to_responder = Vec::new();
    initiator.on_bytes(&to_initiator, &mut to_responder, &mut delivered).unwrap();
    let mut to_initiator = Vec::new();
    responder.on_bytes(&to_responder, &mut to_initiator, &mut delivered).unwrap();
    assert!(delivered.is_empty());
    (initiator, responder)
}

/// One client request carried through the encrypted transport, answered by
/// the server against the shared store, and carried back.
fn round(
    client: &mut ConnectionDriver,
    server: &mut ConnectionDriver,
    state: &mut ServerState,
    request: Vec<u8>,
) -> (String, Option<Vec<u8>>) {
    let mut wire = Vec::new();
    client.send(&request, &mut wire).unwrap();
    let mut delivered: Vec<Vec<u8>> = Vec::new();
    let mut replies = Vec::new();
    server.on_bytes(&wire, &mut replies, &mut delivered).unwrap();
    assert_eq!(delivered.len(), 1);
    let response = state.apply(parse_request(&delivered[0]));
    let mut wire = Vec::new();
    server.send(&encode_response(&response), &mut wire).unwrap();
    let mut delivered: Vec<Vec<u8>> = Vec::new();
    client.on_bytes(&wire, &mut replies, &mut delivered).unwrap();
    assert_eq!(delivered.len(), 1);
    parse_response(&delivered[0])
}

#[test]
fn apply_put_then_get() {
    let mut state = ServerState::new();
    let r = state.apply(Command::Put { key: "hello".to_string(), value: b"world".to_vec() });
    assert_eq!(r.key, "hello");
    assert_eq!(r.value, Some(b"world".to_vec()));
    let r = state.apply(Command::Get { key: "hello".to_string() });
    assert_eq!(r.key, "hello");
    assert_eq!(r.value, Some(b"world".to_vec()));
}

#[test]
fn apply_get_missing() {
    let mut state = ServerState::new();
    let r = state.apply(Command::Get { key: "missing".to_string() });
    assert_eq!(r.key, "missing");
    assert_eq!(r.value, None);
}

#[test]
fn apply_put_overwrites() {
    let mut state = ServerState::new();
    state.apply(Command::Put { key: "k".to_string(), value: b"one".to_vec() });
    state.apply(Command::Put { key: "k".to_string(), value: b"two".to_vec() });
    let r = state.apply(Command::Get { key: "k".to_string() });
    assert_eq!(r.value, Some(b"two".to_vec()));
}

#[test]
fn end_to_end_put_get() {
    let mut state = ServerState::new();
    let (mut client, mut server) = connect();

    let r = round(&mut client, &mut server, &mut state, encode_put("hello", b"world"));
    assert_eq!(r, ("hello".to_string(), Some(b"world".to_vec())));

    let r = round(&mut client, &mut server, &mut state, encode_get("hello"));
    assert_eq!(r, ("hello".to_string(), Some(b"world".to_vec())));

    let r = round(&mut client, &mut server, &mut state, encode_get("missing"));
    assert_eq!(r, ("missing".to_string(), None));
}

#[test]
fn concurrent_connections_do_not_interfere() {
    let mut state = ServerState::new();
    let mut connections = Vec::new();
    for _ in 0..3 {
        connections.push(connect());
    }
    for (i, (client, server)) in connections.iter_mut().enumerate() {
        let key = format!("key{}", i);
        let value = format!("value{}", i).into_bytes();
        let r = round(client, server, &mut state, encode_put(&key, &value));
        assert_eq!(r, (key, Some(value)));
    }
    for (i, (client, server)) in connections.iter_mut().enumerate() {
        let key = format!("key{}", i);
        let value = format!("value{}", i).into_bytes();
        let r = round(client, server, &mut state, encode_get(&key));
        assert_eq!(r, (key.clone(), Some(value)));
        let other = format!("key{}", (i + 1) % 3);
        let r = round(client, server, &mut state, encode_get(&other));
        assert_eq!(r, (other, Some(format!("value{}", (i + 1) % 3).into_bytes())));
    }
}
