use rust_kvstore::frame::{encode_frame, try_decode_frame};
use rust_kvstore::CodecError;

#[test]
fn header_is_big_endian() {
    let mut dst = Vec::new();
    encode_frame(&vec![0xAA], &mut dst).unwrap();
    assert_eq!(dst, vec![0x00, 0x01, 0xAA]);

    let mut dst = Vec::new();
    encode_frame(&vec![7u8; 0x0102], &mut dst).unwrap();
    assert_eq!(dst[0], 0x01);
    assert_eq!(dst[1], 0x02);
    assert_eq!(dst.len(), 2 + 0x0102);
}

#[test]
fn frame_too_large_writes_nothing() {
    let mut dst = b"kept".to_vec();
    let r = encode_frame(&vec![0u8; 65536], &mut dst);
    assert_eq!(r, Err(CodecError::FrameTooLarge));
    assert_eq!(dst, b"kept".to_vec());

    let mut dst = Vec::new();
    encode_frame(&vec![0u8; 65535], &mut dst).unwrap();
    assert_eq!(dst.len(), 2 + 65535);
}

#[test]
fn decode_waits_for_whole_frame() {
    let mut dst = Vec::new();
    encode_frame(&b"abc".to_vec(), &mut dst).unwrap();

    let mut buf = Vec::new();
    for i in 0..dst.len() {
        buf.push(dst[i]);
        let r = try_decode_frame(&mut buf);
        if i + 1 < dst.len() {
            assert!(r.is_none());
            assert_eq!(buf.len(), i + 1);
        } else {
            assert_eq!(r.unwrap(), b"abc".to_vec());
            assert!(buf.is_empty());
        }
    }
}

#[test]
fn decode_keeps_trailing_bytes() {
    let mut buf = Vec::new();
    encode_frame(&b"one".to_vec(), &mut buf).unwrap();
    encode_frame(&b"two".to_vec(), &mut buf).unwrap();
    assert_eq!(try_decode_frame(&mut buf).unwrap(), b"one".to_vec());
    assert_eq!(try_decode_frame(&mut buf).unwrap(), b"two".to_vec());
    assert!(buf.is_empty());
    assert!(try_decode_frame(&mut buf).is_none());
}

#[test]
fn empty_payload_frame() {
    let mut buf = Vec::new();
    encode_frame(&Vec::new(), &mut buf).unwrap();
    assert_eq!(buf, vec![0x00, 0x00]);
    assert_eq!(try_decode_frame(&mut buf).unwrap(), Vec::<u8>::new());
    assert!(buf.is_empty());
}
