//! Frame codec of the PLC loopback test.
//!
//! The request is a fixed 19-byte frame: a 15-byte command header, a
//! little-endian data length of 2 and the two payload bytes.  A healthy device
//! answers with a 15-byte frame that carries an end code, a data length and
//! the payload it was sent.

use vstd::prelude::*;

verus! {

/// Length of the loopback request frame.
pub const REQUEST_LEN: usize = 19;

/// Length of the command header that opens the request frame.
pub const REQUEST_HEADER_LEN: usize = 15;

/// Offset of the little-endian data length in the request frame.
pub const REQUEST_DATA_LENGTH_OFFSET: usize = 15;

/// Offset of the payload in the request frame.
pub const REQUEST_PAYLOAD_OFFSET: usize = 17;

/// Length of a structurally valid loopback response frame.
pub const RESPONSE_LEN: usize = 15;

/// Offset of the little-endian end code in the response frame.
pub const RESPONSE_END_CODE_OFFSET: usize = 9;

/// Offset of the little-endian data length in the response frame.
pub const RESPONSE_DATA_LENGTH_OFFSET: usize = 11;

/// Offset of the echoed payload in the response frame.
pub const RESPONSE_PAYLOAD_OFFSET: usize = 13;

/// Number of payload bytes that the loopback test carries.
pub const PAYLOAD_LEN: usize = 2;

/// The payload that the connectivity probe sends: the ASCII text `AB`.
pub const PROBE_PAYLOAD: [u8; 2] = [0x41, 0x42];

/// The value of a two-byte little-endian field.
pub open spec fn le16(lo: u8, hi: u8) -> u16 {
    (lo as int + 256 * (hi as int)) as u16
}

/// The command header of the loopback request.
pub open spec fn request_header() -> Seq<u8> {
    seq![
        0x50u8, 0x00u8, 0x00u8, 0xffu8, 0xffu8, 0x03u8, 0x00u8, 0x0du8,
        0x00u8, 0x00u8, 0x00u8, 0x19u8, 0x06u8, 0x00u8, 0x00u8,
    ]
}

/// The request frame that carries `payload`: the header, the data length 2
/// in little-endian order, then the payload.
pub open spec fn request_frame(payload: Seq<u8>) -> Seq<u8> {
    request_header() + seq![0x02u8, 0x00u8] + payload
}

/// The payload of a request frame, if `frame` is one: it has the length of a
/// request, opens with the command header and announces two bytes of data.
pub open spec fn request_payload(frame: Seq<u8>) -> Option<Seq<u8>> {
    if frame.len() == REQUEST_LEN
        && frame.subrange(0, REQUEST_HEADER_LEN as int) == request_header()
        && le16(frame[REQUEST_DATA_LENGTH_OFFSET as int], frame[REQUEST_DATA_LENGTH_OFFSET + 1])
            == PAYLOAD_LEN {
        Some(frame.subrange(REQUEST_PAYLOAD_OFFSET as int, REQUEST_LEN as int))
    } else {
        None
    }
}

/// The fields of a structurally valid loopback response.
#[derive(Clone, Copy, Debug, PartialEq, Eq)]
pub struct LoopbackReply {
    /// Completion status reported by the device; zero means success.
    pub end_code: u16,
    /// Number of payload bytes that the device announces.
    pub data_length: u16,
    /// The payload bytes that the device sent back.
    pub payload: [u8; 2],
}

/// Why a structurally valid response is not the answer to a loopback test.
#[derive(Clone, Copy, Debug, PartialEq, Eq, Structural)]
pub enum ReplyFault {
    /// The end code is not zero.
    NonZeroEndCode,
    /// The data length is not the number of payload bytes.
    InvalidDataLength,
    /// The payload differs from the one that was sent.
    EchoMismatch,
}

impl LoopbackReply {
    /// Whether `self` holds the fields of the response frame `frame`.
    pub open spec fn is_decoding_of(self, frame: Seq<u8>) -> bool {
        &&& frame.len() == RESPONSE_LEN
        &&& self.end_code == le16(
            frame[RESPONSE_END_CODE_OFFSET as int],
            frame[RESPONSE_END_CODE_OFFSET + 1],
        )
        &&& self.data_length == le16(
            frame[RESPONSE_DATA_LENGTH_OFFSET as int],
            frame[RESPONSE_DATA_LENGTH_OFFSET + 1],
        )
        &&& self.payload@ == frame.subrange(RESPONSE_PAYLOAD_OFFSET as int, RESPONSE_LEN as int)
    }

    /// The first rule that the reply breaks as an answer to a request that
    /// carried `sent`, in the order end code, data length, echo.
    pub open spec fn fault(self, sent: Seq<u8>) -> Option<ReplyFault> {
        if self.end_code != 0 {
            Some(ReplyFault::NonZeroEndCode)
        } else if self.data_length != PAYLOAD_LEN {
            Some(ReplyFault::InvalidDataLength)
        } else if self.payload@ != sent {
            Some(ReplyFault::EchoMismatch)
        } else {
            None
        }
    }

    /// Judges the reply as an answer to a request that carried `sent`.
    pub fn check(&self, sent: &[u8; 2]) -> (r: Result<(), ReplyFault>)
        ensures
            r == (match self.fault(sent@) {
                Some(fault) => Err::<(), ReplyFault>(fault),
                None => Ok::<(), ReplyFault>(()),
            }),
    {
        if self.end_code != 0 {
            Err(ReplyFault::NonZeroEndCode)
        } else if self.data_length != 2 {
            Err(ReplyFault::InvalidDataLength)
        } else if self.payload[0] != sent[0] || self.payload[1] != sent[1] {
            assert(self.payload@ != sent@);
            Err(ReplyFault::EchoMismatch)
        } else {
            assert(self.payload@ =~= sent@);
            Ok(())
        }
    }
}

/// Reads a two-byte little-endian field at `offset`.
fn read_le16(buf: &[u8], offset: usize) -> (v: u16)
    requires
        offset + 1 < buf@.len(),
    ensures
        v == le16(buf@[offset as int], buf@[offset + 1]),
{
    let lo: u16 = buf[offset] as u16;
    let hi: u16 = buf[offset + 1] as u16;
    lo + hi * 256
}

/// Builds the loopback request frame that carries `payload`.
pub fn encode_loopback_request(payload: &[u8; 2]) -> (frame: [u8; 19])
    ensures
        frame@ == request_frame(payload@),
{
    let frame: [u8; 19] = [
        0x50, 0x00, 0x00, 0xff, 0xff, 0x03, 0x00, 0x0d, 0x00, 0x00, 0x00, 0x19, 0x06, 0x00, 0x00,
        0x02, 0x00, payload[0], payload[1],
    ];
    assert(frame@ =~= request_frame(payload@));
    frame
}

/// Reads the payload back out of a loopback request frame.
pub fn decode_loopback_request(frame: &[u8]) -> (r: Option<[u8; 2]>)
    ensures
        r is Some <==> request_payload(frame@) is Some,
        r matches Some(payload) ==> request_payload(frame@) == Some(payload@),
{
    if frame.len() != REQUEST_LEN {
        return None;
    }
    let header: [u8; 15] = [
        0x50, 0x00, 0x00, 0xff, 0xff, 0x03, 0x00, 0x0d, 0x00, 0x00, 0x00, 0x19, 0x06, 0x00, 0x00,
    ];
    assert(header@ =~= request_header());
    let mut i: usize = 0;
    while i < REQUEST_HEADER_LEN
        invariant
            i <= REQUEST_HEADER_LEN,
            frame@.len() == REQUEST_LEN,
            header@ == request_header(),
            forall|k: int| 0 <= k < i ==> frame@[k] == header@[k],
        decreases REQUEST_HEADER_LEN - i,
    {
        if frame[i] != header[i] {
            assert(frame@.subrange(0, REQUEST_HEADER_LEN as int)[i as int] != request_header()[
                i as int
            ]);
            return None;
        }
        i += 1;
    }
    assert(frame@.subrange(0, REQUEST_HEADER_LEN as int) =~= request_header());
    if read_le16(frame, REQUEST_DATA_LENGTH_OFFSET) != 2 {
        return None;
    }
    let payload: [u8; 2] = [frame[REQUEST_PAYLOAD_OFFSET], frame[REQUEST_PAYLOAD_OFFSET + 1]];
    assert(payload@ =~= frame@.subrange(REQUEST_PAYLOAD_OFFSET as int, REQUEST_LEN as int));
    Some(payload)
}

/// Reads the fields of a loopback response.  The response is structurally
/// valid exactly when it is `RESPONSE_LEN` bytes long; no byte is read before
/// that is known.
pub fn decode_loopback_response(frame: &[u8]) -> (r: Option<LoopbackReply>)
    ensures
        r is Some <==> frame@.len() == RESPONSE_LEN,
        r matches Some(reply) ==> reply.is_decoding_of(frame@),
{
    if frame.len() != RESPONSE_LEN {
        return None;
    }
    let end_code: u16 = read_le16(frame, RESPONSE_END_CODE_OFFSET);
    let data_length: u16 = read_le16(frame, RESPONSE_DATA_LENGTH_OFFSET);
    let payload: [u8; 2] = [frame[RESPONSE_PAYLOAD_OFFSET], frame[RESPONSE_PAYLOAD_OFFSET + 1]];
    assert(payload@ =~= frame@.subrange(RESPONSE_PAYLOAD_OFFSET as int, RESPONSE_LEN as int));
    Some(LoopbackReply { end_code, data_length, payload })
}

/// Decoding an encoded request gives back the payload that was encoded.
pub proof fn lemma_request_round_trip(payload: Seq<u8>)
    requires
        payload.len() == PAYLOAD_LEN,
    ensures
        request_payload(request_frame(payload)) == Some(payload),
{
    let frame = request_frame(payload);
    assert(frame.subrange(0, REQUEST_HEADER_LEN as int) =~= request_header());
    assert(frame.subrange(REQUEST_PAYLOAD_OFFSET as int, REQUEST_LEN as int) =~= payload);
}

} // verus!
