//! The wire format of the WebSocket binary messages.
//!
//! A request frame is a big-endian `u16` command followed by the payload.
//! A response frame is a big-endian `u16` error code, the big-endian `u16`
//! command, then the response data.

use crate::buffer::{
    buffer_as_slice, buffer_extend, buffer_from_slice, buffer_len, buffer_with_capacity, bytes_of,
};
use crate::byte_order::{be_read_u16, be_u16, be_write_u16_at, u16_be_bytes};
use bytes::BytesMut;
use vstd::prelude::*;

verus! {

/// The request frame for `cmd` carrying `payload`.
pub open spec fn request_frame(cmd: u16, payload: Seq<u8>) -> Seq<u8> {
    u16_be_bytes(cmd) + payload
}

/// The response frame for `error_code` and `cmd` carrying `data`.
pub open spec fn response_frame(error_code: u16, cmd: u16, data: Seq<u8>) -> Seq<u8> {
    u16_be_bytes(error_code) + u16_be_bytes(cmd) + data
}

/// What a request frame holds: its command and its payload, or nothing when
/// the frame is too short to hold a command.
pub open spec fn spec_decode_request(frame: Seq<u8>) -> Option<(u16, Seq<u8>)> {
    if frame.len() >= 2 {
        Some((be_u16(frame[0], frame[1]), frame.skip(2)))
    } else {
        None
    }
}

/// Splits a binary message into its command and payload; `None` when the
/// message is shorter than the two-byte header.
pub fn decode_request(data: &[u8]) -> (r: Option<(u16, BytesMut)>)
    ensures
        r is Some <==> data@.len() >= 2,
        r matches Some((cmd, payload)) ==> spec_decode_request(data@) == Some(
            (cmd, bytes_of(payload)),
        ),
{
    if data.len() >= 2 {
        let cmd = be_read_u16(&data[0..2]);
        let payload = &data[2..data.len()];
        let message_data = buffer_from_slice(payload);
        Some((cmd, message_data))
    } else {
        None
    }
}

/// The answer the server gives a request: error code 0, the same command,
/// the payload unchanged.
pub fn process_message(cmd: u16, message: BytesMut) -> (r: (u16, u16, BytesMut))
    ensures
        r.0 == 0,
        r.1 == cmd,
        r.2 == message,
{
    let error_code: u16 = 0;
    (error_code, cmd, message)
}

/// Builds the response frame for `error_code` and `cmd` carrying
/// `response_data`.
pub fn encode_response(error_code: u16, cmd: u16, response_data: &BytesMut) -> (message: BytesMut)
    requires
        bytes_of(*response_data).len() + 4 <= isize::MAX,
    ensures
        bytes_of(message) == response_frame(error_code, cmd, bytes_of(*response_data)),
{
    let mut header: Vec<u8> = vec![0u8; 4];
    be_write_u16_at(header.as_mut_slice(), 0, error_code);
    be_write_u16_at(header.as_mut_slice(), 2, cmd);
    let data_len = buffer_len(response_data);
    let mut message = buffer_with_capacity(4 + data_len);
    buffer_extend(&mut message, header.as_slice());
    buffer_extend(&mut message, buffer_as_slice(response_data));
    assert(header@ =~= u16_be_bytes(error_code) + u16_be_bytes(cmd));
    message
}

/// Decoding the request frame of a command and payload gives that command
/// and that payload back.
pub proof fn lemma_request_roundtrip(cmd: u16, payload: Seq<u8>)
    ensures
        spec_decode_request(request_frame(cmd, payload)) == Some((cmd, payload)),
{
    let f = request_frame(cmd, payload);
    assert(f.skip(2) =~= payload);
}

/// A frame that decodes is exactly the request frame of what it decodes to:
/// no two frames decode to the same command and payload.
pub proof fn lemma_decode_is_exact(frame: Seq<u8>)
    ensures
        spec_decode_request(frame) matches Some((cmd, payload)) ==> request_frame(cmd, payload)
            == frame,
{
    if frame.len() >= 2 {
        let cmd = be_u16(frame[0], frame[1]);
        assert(u16_be_bytes(cmd)[0] == frame[0] && u16_be_bytes(cmd)[1] == frame[1]);
        assert(request_frame(cmd, frame.skip(2)) =~= frame);
    }
}

/// A response frame starts with its error code, and what follows the error
/// code is the request frame of the same command and data.
pub proof fn lemma_response_layout(error_code: u16, cmd: u16, data: Seq<u8>)
    ensures
        ({
            let f = response_frame(error_code, cmd, data);
            &&& be_u16(f[0], f[1]) == error_code
            &&& f.skip(2) == request_frame(cmd, data)
            &&& spec_decode_request(f.skip(2)) == Some((cmd, data))
        }),
{
    let f = response_frame(error_code, cmd, data);
    assert(f.skip(2) =~= request_frame(cmd, data));
    lemma_request_roundtrip(cmd, data);
}

/// The server echoes: the answer to a request frame of at least two bytes,
/// decoded, processed and encoded again, is error code 0 followed by the
/// request frame itself.
pub proof fn lemma_echo(frame: Seq<u8>)
    requires
        frame.len() >= 2,
    ensures
        spec_decode_request(frame) matches Some((cmd, payload)) && response_frame(0, cmd, payload)
            == seq![0u8, 0u8] + frame,
{
    lemma_decode_is_exact(frame);
    let (cmd, payload) = spec_decode_request(frame).unwrap();
    assert(response_frame(0, cmd, payload) =~= seq![0u8, 0u8] + frame);
}

} // verus!
