use rpc_core::addr::Addr;
use rpc_core::proto::Packet;
use rpc_core::wire::{decode_packet, encode_packet};

fn home() -> Addr {
    Addr { a: 127, b: 0, c: 0, d: 1, port: 3000 }
}

#[test]
fn content_hash_has_known_value() {
    // SHA-256 of the frame with an empty hash field, hex-encoded:
    // layout 127.0.0.1, port 3000 LE, date 1000 LE, two empty string
    // fields, then the three payload bytes.
    let p = Packet::new(b"abc".to_vec(), home(), String::new(), 1000);
    assert_eq!(
        p.header.msg_hash,
        "f9bad96675323d3809d6afb4c94f100bb40c87a4eb8682d3ff5c756a67e695d6"
    );
    assert_eq!(p.header.msg_hash.len(), 64);
    assert_eq!(p.header.response_to, "");
}

#[test]
fn reply_hash_has_known_value() {
    let req = Packet::new(b"abc".to_vec(), home(), String::new(), 1000);
    let rep = Packet::new(
        b"pong".to_vec(),
        Addr { a: 10, b: 0, c: 0, d: 2, port: 9 },
        req.header.msg_hash.clone(),
        7,
    );
    assert_eq!(
        rep.header.msg_hash,
        "ce6ca7e0da0c2386034b030a22079e31607a78dec641a097ef7e83824a0be9f7"
    );
    assert_eq!(rep.header.response_to, req.header.msg_hash);
}

#[test]
fn hash_is_stable_for_identical_fields() {
    let p1 = Packet::new(b"same".to_vec(), home(), String::new(), 42);
    let p2 = Packet::new(b"same".to_vec(), home(), String::new(), 42);
    assert_eq!(p1.header.msg_hash, p2.header.msg_hash);
}

#[test]
fn hash_changes_with_any_field() {
    let base = Packet::new(b"body".to_vec(), home(), String::new(), 42);
    let other_body = Packet::new(b"bodz".to_vec(), home(), String::new(), 42);
    let other_sender = Packet::new(
        b"body".to_vec(),
        Addr { a: 127, b: 0, c: 0, d: 2, port: 3000 },
        String::new(),
        42,
    );
    let other_date = Packet::new(b"body".to_vec(), home(), String::new(), 43);
    let other_resp = Packet::new(b"body".to_vec(), home(), base.header.msg_hash.clone(), 42);
    assert_ne!(base.header.msg_hash, other_body.header.msg_hash);
    assert_ne!(base.header.msg_hash, other_sender.header.msg_hash);
    assert_ne!(base.header.msg_hash, other_date.header.msg_hash);
    assert_ne!(base.header.msg_hash, other_resp.header.msg_hash);
}

#[test]
fn frame_layout_is_exact() {
    // 127.0.0.1, port 3000 LE (184, 11), date 1000 LE, then the three
    // length-prefixed fields: the 64-digit hash, an empty response_to,
    // and the body "abc".
    let p = Packet::new(b"abc".to_vec(), home(), String::new(), 1000);
    let wire = encode_packet(&p);
    let mut expected: Vec<u8> = vec![127, 0, 0, 1, 184, 11, 232, 3, 0, 0, 0, 0, 0, 0];
    expected.extend_from_slice(&[64, 0, 0, 0, 0, 0, 0, 0]);
    expected.extend_from_slice(p.header.msg_hash.as_bytes());
    expected.extend_from_slice(&[0; 8]);
    expected.extend_from_slice(&[3, 0, 0, 0, 0, 0, 0, 0]);
    expected.extend_from_slice(b"abc");
    assert_eq!(wire, expected);
}

#[test]
fn frame_round_trips() {
    let p = Packet::new(b"payload bytes".to_vec(), home(), String::new(), 123456789);
    let wire = encode_packet(&p);
    let q = decode_packet(&wire).unwrap();
    assert_eq!(q.header.sender, p.header.sender);
    assert_eq!(q.header.date, p.header.date);
    assert_eq!(q.header.msg_hash, p.header.msg_hash);
    assert_eq!(q.header.response_to, p.header.response_to);
    assert_eq!(q.data, p.data);
}

#[test]
fn reply_frame_round_trips() {
    let req = Packet::new(b"ping".to_vec(), home(), String::new(), 1);
    let rep = Packet::new(b"pong".to_vec(), home(), req.header.msg_hash.clone(), 2);
    let wire = encode_packet(&rep);
    let q = decode_packet(&wire).unwrap();
    assert_eq!(q.header.response_to, req.header.msg_hash);
    assert_eq!(q.data, b"pong".to_vec());
}

#[test]
fn empty_body_round_trips() {
    let p = Packet::new(Vec::new(), home(), String::new(), 0);
    let wire = encode_packet(&p);
    let q = decode_packet(&wire).unwrap();
    assert_eq!(q.data, Vec::<u8>::new());
    assert_eq!(q.header.msg_hash, p.header.msg_hash);
}

#[test]
fn truncated_frames_are_rejected() {
    assert!(decode_packet(&Vec::new()).is_none());
    assert!(decode_packet(&vec![1, 2, 3]).is_none());
    // Header only, no length fields.
    assert!(decode_packet(&vec![127, 0, 0, 1, 0, 0, 0, 0, 0, 0, 0, 0, 0, 0]).is_none());
    let p = Packet::new(b"abc".to_vec(), home(), String::new(), 1000);
    let mut wire = encode_packet(&p);
    wire.pop();
    assert!(decode_packet(&wire).is_none());
}

#[test]
fn trailing_bytes_are_rejected() {
    let p = Packet::new(b"abc".to_vec(), home(), String::new(), 1000);
    let mut wire = encode_packet(&p);
    wire.push(0);
    assert!(decode_packet(&wire).is_none());
}

#[test]
fn non_ascii_hash_field_is_rejected() {
    // 14 header bytes, then a hash field of length 1 holding 0xff.
    let mut frame = vec![127, 0, 0, 1, 0, 0, 1, 0, 0, 0, 0, 0, 0, 0];
    frame.extend_from_slice(&[1, 0, 0, 0, 0, 0, 0, 0, 0xff]);
    // Empty response_to and data fields.
    frame.extend_from_slice(&[0; 8]);
    frame.extend_from_slice(&[0; 8]);
    assert!(decode_packet(&frame).is_none());
}

#[test]
fn oversized_length_prefix_is_rejected() {
    // A hash-length field far past the end of the frame.
    let mut frame = vec![127, 0, 0, 1, 0, 0, 1, 0, 0, 0, 0, 0, 0, 0];
    frame.extend_from_slice(&[0xff, 0xff, 0xff, 0xff, 0xff, 0xff, 0xff, 0xff]);
    assert!(decode_packet(&frame).is_none());
}
