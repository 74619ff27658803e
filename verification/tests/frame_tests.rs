use bytes::BytesMut;
use socket_server::frame::{decode_request, encode_response, process_message};

#[test]
fn decode_splits_command_and_payload() {
    let (cmd, payload) = decode_request(&[0x03, 0xE9, 1, 2, 3]).unwrap();
    assert_eq!(cmd, 1001);
    assert_eq!(&payload[..], &[1u8, 2, 3][..]);
}

#[test]
fn decode_reads_big_endian() {
    let (cmd, payload) = decode_request(&[0x12, 0x34]).unwrap();
    assert_eq!(cmd, 0x1234);
    assert!(payload.is_empty());
}

#[test]
fn decode_refuses_short_frames() {
    assert!(decode_request(&[]).is_none());
    assert!(decode_request(&[7]).is_none());
}

#[test]
fn encode_writes_header_then_data() {
    let data = BytesMut::from(&[9u8, 8][..]);
    let frame = encode_response(0x0102, 0x0304, &data);
    assert_eq!(&frame[..], &[1u8, 2, 3, 4, 9, 8][..]);
}

#[test]
fn encode_without_data_is_the_header() {
    let frame = encode_response(1, 2003, &BytesMut::new());
    assert_eq!(&frame[..], &[0u8, 1, 0x07, 0xD3][..]);
}

#[test]
fn process_message_echoes_with_code_zero() {
    let msg = BytesMut::from(&b"abc"[..]);
    let (code, cmd, out) = process_message(2001, msg);
    assert_eq!(code, 0);
    assert_eq!(cmd, 2001);
    assert_eq!(&out[..], b"abc");
}

#[test]
fn echo_law_on_a_frame() {
    let frame = [0x07u8, 0xD1, 0xAA, 0xBB, 0xCC];
    let (cmd, payload) = decode_request(&frame).unwrap();
    let (code, cmd, data) = process_message(cmd, payload);
    let answer = encode_response(code, cmd, &data);
    assert_eq!(&answer[..], &[0u8, 0, 0x07, 0xD1, 0xAA, 0xBB, 0xCC][..]);
}

#[test]
fn response_after_error_code_is_a_request() {
    let data = BytesMut::from(&[5u8, 6][..]);
    let answer = encode_response(0xFFFF, 0xABCD, &data);
    assert_eq!(&answer[..2], &[0xFFu8, 0xFF][..]);
    let (cmd, payload) = decode_request(&answer[2..]).unwrap();
    assert_eq!(cmd, 0xABCD);
    assert_eq!(&payload[..], &[5u8, 6][..]);
}

#[test]
fn request_roundtrip() {
    let frame = [0x00u8, 0x00];
    let (cmd, payload) = decode_request(&frame).unwrap();
    assert_eq!(cmd, 0);
    assert_eq!(payload.len(), 0);
}
