//! The device connectivity probe.
//!
//! A probe opens a connection to one device, sends the request of the
//! device's type, reads one answer and closes the connection.  This module
//! holds what a probe decides: what is sent, how the answer is judged and
//! which step follows which.  The caller performs each step on a socket and
//! reports how it went.

use crate::device::DeviceType;
use crate::frame::{
    decode_loopback_response, encode_loopback_request, le16, request_frame, ReplyFault,
    PAYLOAD_LEN, PROBE_PAYLOAD, RESPONSE_DATA_LENGTH_OFFSET, RESPONSE_END_CODE_OFFSET,
    RESPONSE_LEN, RESPONSE_PAYLOAD_OFFSET,
};
use crate::text::{
    ascii_bytes, ascii_lower, ascii_lower_bytes, bytes_of, starts_with_ignoring_case,
    starts_with_lowered, text_of_bytes,
};
use vstd::prelude::*;
use vstd::utf8::valid_utf8;

verus! {

/// Seconds allowed for establishing the connection.
pub const CONNECT_TIMEOUT_SECS: u64 = 2;

/// Seconds allowed for each write on the connection.
pub const WRITE_TIMEOUT_SECS: u64 = 2;

/// Seconds allowed for each read on the connection.
pub const READ_TIMEOUT_SECS: u64 = 2;

/// The largest number of bytes that a probe reads as the device's answer.
pub const READ_CAPACITY: usize = 240;

/// The timeout of a connection that could not be set.
#[derive(Clone, Copy, Debug, PartialEq, Eq, Structural)]
pub enum TimeoutKind {
    /// The timeout for reads.
    Read,
    /// The timeout for writes.
    Write,
}

/// Why a probe failed.
#[derive(Clone, Copy, Debug, PartialEq, Eq, Structural)]
pub enum ProbeFailureReason {
    /// The device's address could not be resolved.
    AddressError,
    /// The connection was refused or timed out.
    ConnectionFailed,
    /// A timeout could not be set on the connection.
    TimeoutConfigFailed(TimeoutKind),
    /// The request could not be sent.
    SendFailed,
    /// No answer could be read.
    ReceiveFailed,
    /// A robot's answer is not text or does not open with the acknowledgement.
    InvalidResponse,
    /// A PLC's answer does not have the length of a loopback response.
    InvalidResponseLength,
    /// A PLC's answer reports an end code other than zero.
    NonZeroEndCode,
    /// A PLC's answer announces a data length other than the payload's.
    InvalidDataLength,
    /// A PLC's answer carries a payload other than the one sent.
    EchoMismatch,
    /// The device's type has no probe protocol.
    UnsupportedDeviceType,
    /// The connection could not be shut down in good order.
    ShutdownFailed,
}

/// The result of a probe.
#[derive(Clone, Copy, Debug, PartialEq, Eq, Structural)]
pub enum ProbeOutcome {
    /// The device answered as a healthy device of its type does.
    Success,
    /// The probe failed for the given reason.
    Failed(ProbeFailureReason),
}

/// What a finished probe reports: its outcome, and whether shutting the
/// connection down failed.  A failed shutdown is reported beside the outcome
/// and never replaces it.
#[derive(Clone, Copy, Debug, PartialEq, Eq, Structural)]
pub struct ProbeReport {
    /// The outcome of the probe.
    pub outcome: ProbeOutcome,
    /// Whether the connection could not be shut down in good order.
    pub shutdown_failed: bool,
}

impl ProbeFailureReason {
    /// The short diagnostic text shown for the reason.
    pub open spec fn spec_message(self) -> Seq<char> {
        match self {
            ProbeFailureReason::AddressError => "Unable to parse socket address"@,
            ProbeFailureReason::ConnectionFailed => "Couldnt connect to device"@,
            ProbeFailureReason::TimeoutConfigFailed(TimeoutKind::Write) => "Couldn't set write timeout"@,
            ProbeFailureReason::TimeoutConfigFailed(TimeoutKind::Read) => "Couldn't set read timeout"@,
            ProbeFailureReason::SendFailed => "Couldn't send message device"@,
            ProbeFailureReason::ReceiveFailed => "Couldn't receive answer from device"@,
            ProbeFailureReason::InvalidResponse => "Invalid answer from device"@,
            ProbeFailureReason::InvalidResponseLength => "Invalid answer from device"@,
            ProbeFailureReason::NonZeroEndCode => "Endcode != 0"@,
            ProbeFailureReason::InvalidDataLength => "Loopback data length invalid"@,
            ProbeFailureReason::EchoMismatch => "Loopback data invalid"@,
            ProbeFailureReason::UnsupportedDeviceType => "Invalid device type"@,
            ProbeFailureReason::ShutdownFailed => "Couldn't shutdown device"@,
        }
    }

    /// The short diagnostic text shown for the reason.
    pub fn message(self) -> (text: String)
        ensures
            text@ == self.spec_message(),
    {
        let text: &str = match self {
            ProbeFailureReason::AddressError => "Unable to parse socket address",
            ProbeFailureReason::ConnectionFailed => "Couldnt connect to device",
            ProbeFailureReason::TimeoutConfigFailed(TimeoutKind::Write) => "Couldn't set write timeout",
            ProbeFailureReason::TimeoutConfigFailed(TimeoutKind::Read) => "Couldn't set read timeout",
            ProbeFailureReason::SendFailed => "Couldn't send message device",
            ProbeFailureReason::ReceiveFailed => "Couldn't receive answer from device",
            ProbeFailureReason::InvalidResponse => "Invalid answer from device",
            ProbeFailureReason::InvalidResponseLength => "Invalid answer from device",
            ProbeFailureReason::NonZeroEndCode => "Endcode != 0",
            ProbeFailureReason::InvalidDataLength => "Loopback data length invalid",
            ProbeFailureReason::EchoMismatch => "Loopback data invalid",
            ProbeFailureReason::UnsupportedDeviceType => "Invalid device type",
            ProbeFailureReason::ShutdownFailed => "Couldn't shutdown device",
        };
        String::from_str(text)
    }
}

impl ProbeReport {
    /// The failure to show for the report: the reason of a failed outcome;
    /// for a successful one, the failed shutdown if there was one.
    pub open spec fn spec_reported_failure(self) -> Option<ProbeFailureReason> {
        match self.outcome {
            ProbeOutcome::Failed(reason) => Some(reason),
            ProbeOutcome::Success => if self.shutdown_failed {
                Some(ProbeFailureReason::ShutdownFailed)
            } else {
                None
            },
        }
    }

    /// The failure to show for the report, if there is one.
    pub fn reported_failure(&self) -> (r: Option<ProbeFailureReason>)
        ensures
            r == self.spec_reported_failure(),
    {
        match self.outcome {
            ProbeOutcome::Failed(reason) => Some(reason),
            ProbeOutcome::Success => if self.shutdown_failed {
                Some(ProbeFailureReason::ShutdownFailed)
            } else {
                None
            },
        }
    }

    /// The diagnostic text of the report: none when nothing went wrong.
    pub fn diagnostic(&self) -> (r: Option<String>)
        ensures
            r is Some <==> self.spec_reported_failure() is Some,
            r matches Some(text) ==> text@ == self.spec_reported_failure()->0.spec_message(),
    {
        match self.reported_failure() {
            Some(reason) => Some(reason.message()),
            None => None,
        }
    }
}

/// The handshake that asks a robot controller to open a session.
pub open spec fn robot_handshake() -> Seq<u8> {
    ascii_bytes("1;1;OPEN=ROBOT"@)
}

/// The token, in lower case, with which a robot controller acknowledges the
/// handshake.
pub open spec fn robot_acknowledgement() -> Seq<u8> {
    ascii_bytes("qok"@)
}

/// The bytes that a probe sends to a device of the given type.
pub open spec fn request_bytes(device_type: DeviceType) -> Seq<u8> {
    match device_type {
        DeviceType::Robot => robot_handshake(),
        DeviceType::Plc => request_frame(PROBE_PAYLOAD@),
    }
}

/// How a robot controller's answer is judged: it must be well-formed UTF-8
/// and open with the acknowledgement, in any mix of upper and lower case.
pub open spec fn robot_outcome(reply: Seq<u8>) -> ProbeOutcome {
    if valid_utf8(reply) && starts_with_lowered(reply, robot_acknowledgement()) {
        ProbeOutcome::Success
    } else {
        ProbeOutcome::Failed(ProbeFailureReason::InvalidResponse)
    }
}

/// How a PLC's answer is judged: by its length, then its end code, then its
/// data length, then the payload it echoes.
pub open spec fn plc_outcome(reply: Seq<u8>) -> ProbeOutcome {
    if reply.len() != RESPONSE_LEN {
        ProbeOutcome::Failed(ProbeFailureReason::InvalidResponseLength)
    } else if le16(reply[RESPONSE_END_CODE_OFFSET as int], reply[RESPONSE_END_CODE_OFFSET + 1])
        != 0 {
        ProbeOutcome::Failed(ProbeFailureReason::NonZeroEndCode)
    } else if le16(
        reply[RESPONSE_DATA_LENGTH_OFFSET as int],
        reply[RESPONSE_DATA_LENGTH_OFFSET + 1],
    ) != PAYLOAD_LEN {
        ProbeOutcome::Failed(ProbeFailureReason::InvalidDataLength)
    } else if reply.subrange(RESPONSE_PAYLOAD_OFFSET as int, RESPONSE_LEN as int)
        != PROBE_PAYLOAD@ {
        ProbeOutcome::Failed(ProbeFailureReason::EchoMismatch)
    } else {
        ProbeOutcome::Success
    }
}

/// How the answer of a device of the given type is judged.
pub open spec fn response_outcome(device_type: DeviceType, reply: Seq<u8>) -> ProbeOutcome {
    match device_type {
        DeviceType::Robot => robot_outcome(reply),
        DeviceType::Plc => plc_outcome(reply),
    }
}

/// The bytes that a probe sends to a device of the given type.
pub fn request_for(device_type: DeviceType) -> (bytes: Vec<u8>)
    ensures
        bytes@ == request_bytes(device_type),
{
    match device_type {
        DeviceType::Robot => {
            proof {
                reveal_strlit("1;1;OPEN=ROBOT");
            }
            vstd::slice::slice_to_vec(bytes_of("1;1;OPEN=ROBOT"))
        },
        DeviceType::Plc => {
            let payload: [u8; 2] = PROBE_PAYLOAD;
            let frame: [u8; 19] = encode_loopback_request(&payload);
            vstd::slice::slice_to_vec(frame.as_slice())
        },
    }
}

/// Judges the answer of a robot controller.  `reply` holds the bytes that
/// were received and no others.
pub fn judge_robot_response(reply: &[u8]) -> (outcome: ProbeOutcome)
    ensures
        outcome == robot_outcome(reply@),
{
    proof {
        reveal_strlit("qok");
    }
    match text_of_bytes(reply) {
        None => ProbeOutcome::Failed(ProbeFailureReason::InvalidResponse),
        Some(_) => {
            if starts_with_ignoring_case(reply, bytes_of("qok")) {
                ProbeOutcome::Success
            } else {
                ProbeOutcome::Failed(ProbeFailureReason::InvalidResponse)
            }
        },
    }
}

/// Judges the answer of a PLC.  `reply` holds the bytes that were received
/// and no others; its length is tested before any byte is read.
pub fn judge_plc_response(reply: &[u8]) -> (outcome: ProbeOutcome)
    ensures
        outcome == plc_outcome(reply@),
{
    let payload: [u8; 2] = PROBE_PAYLOAD;
    match decode_loopback_response(reply) {
        None => ProbeOutcome::Failed(ProbeFailureReason::InvalidResponseLength),
        Some(fields) => match fields.check(&payload) {
            Ok(()) => ProbeOutcome::Success,
            Err(ReplyFault::NonZeroEndCode) => ProbeOutcome::Failed(
                ProbeFailureReason::NonZeroEndCode,
            ),
            Err(ReplyFault::InvalidDataLength) => ProbeOutcome::Failed(
                ProbeFailureReason::InvalidDataLength,
            ),
            Err(ReplyFault::EchoMismatch) => ProbeOutcome::Failed(
                ProbeFailureReason::EchoMismatch,
            ),
        },
    }
}

/// Judges the answer of a device of the given type.
pub fn judge_response(device_type: DeviceType, reply: &[u8]) -> (outcome: ProbeOutcome)
    ensures
        outcome == response_outcome(device_type, reply@),
{
    match device_type {
        DeviceType::Robot => judge_robot_response(reply),
        DeviceType::Plc => judge_plc_response(reply),
    }
}

/// Whether `reply` is the answer of a PLC that echoes `sent` correctly: it
/// has the length of a response, end code zero, the payload's data length
/// and `sent` as its payload.
pub open spec fn is_loopback_echo(reply: Seq<u8>, sent: Seq<u8>) -> bool {
    &&& reply.len() == RESPONSE_LEN
    &&& le16(reply[RESPONSE_END_CODE_OFFSET as int], reply[RESPONSE_END_CODE_OFFSET + 1]) == 0
    &&& le16(reply[RESPONSE_DATA_LENGTH_OFFSET as int], reply[RESPONSE_DATA_LENGTH_OFFSET + 1])
        == PAYLOAD_LEN
    &&& reply.subrange(RESPONSE_PAYLOAD_OFFSET as int, RESPONSE_LEN as int) == sent
}

/// A PLC that echoes the probe's payload correctly is judged healthy, and no
/// other answer of a PLC is.
pub proof fn lemma_plc_echo_succeeds(reply: Seq<u8>)
    ensures
        is_loopback_echo(reply, PROBE_PAYLOAD@) <==> plc_outcome(reply) == ProbeOutcome::Success,
{
}

/// An answer of a PLC that is not exactly `RESPONSE_LEN` bytes long is
/// rejected for its length, whatever it holds.
pub proof fn lemma_plc_wrong_length(reply: Seq<u8>)
    requires
        reply.len() != RESPONSE_LEN,
    ensures
        plc_outcome(reply) == ProbeOutcome::Failed(ProbeFailureReason::InvalidResponseLength),
{
}

/// An answer of a PLC that has the right length and an end code other than
/// zero is rejected for its end code, whatever else it holds.
pub proof fn lemma_plc_nonzero_end_code(reply: Seq<u8>)
    requires
        reply.len() == RESPONSE_LEN,
        le16(reply[RESPONSE_END_CODE_OFFSET as int], reply[RESPONSE_END_CODE_OFFSET + 1]) != 0,
    ensures
        plc_outcome(reply) == ProbeOutcome::Failed(ProbeFailureReason::NonZeroEndCode),
{
}

/// An answer of a PLC that is sound but for its payload is rejected as an
/// echo mismatch.
pub proof fn lemma_plc_echo_mismatch(reply: Seq<u8>)
    requires
        reply.len() == RESPONSE_LEN,
        le16(reply[RESPONSE_END_CODE_OFFSET as int], reply[RESPONSE_END_CODE_OFFSET + 1]) == 0,
        le16(reply[RESPONSE_DATA_LENGTH_OFFSET as int], reply[RESPONSE_DATA_LENGTH_OFFSET + 1])
            == PAYLOAD_LEN,
        reply.subrange(RESPONSE_PAYLOAD_OFFSET as int, RESPONSE_LEN as int) != PROBE_PAYLOAD@,
    ensures
        plc_outcome(reply) == ProbeOutcome::Failed(ProbeFailureReason::EchoMismatch),
{
}

/// Whether `b` is the letter `lower` in either case; `lower` is a lower-case
/// ASCII letter.
pub open spec fn is_letter_in_any_case(b: u8, lower: u8) -> bool {
    b == lower || b + 0x20 == lower
}

/// A well-formed answer of a robot controller is judged healthy exactly when
/// its first three bytes are the letters q, o, k, each in either case; every
/// other answer is an invalid response.
pub proof fn lemma_robot_acknowledgement(reply: Seq<u8>)
    requires
        valid_utf8(reply),
    ensures
        robot_outcome(reply) == ProbeOutcome::Success <==> {
            &&& reply.len() >= 3
            &&& is_letter_in_any_case(reply[0], 0x71)
            &&& is_letter_in_any_case(reply[1], 0x6f)
            &&& is_letter_in_any_case(reply[2], 0x6b)
        },
        robot_outcome(reply) != ProbeOutcome::Success ==> robot_outcome(reply)
            == ProbeOutcome::Failed(ProbeFailureReason::InvalidResponse),
{
    reveal_strlit("qok");
    let ack = robot_acknowledgement();
    let lowered = ascii_lower_bytes(reply);
    assert(ack.len() == 3 && ack[0] == 0x71 && ack[1] == 0x6f && ack[2] == 0x6b);
    if reply.len() >= 3 {
        let head = lowered.subrange(0, 3);
        assert(head[0] == ascii_lower(reply[0]));
        assert(head[1] == ascii_lower(reply[1]));
        assert(head[2] == ascii_lower(reply[2]));
        if is_letter_in_any_case(reply[0], 0x71) && is_letter_in_any_case(reply[1], 0x6f)
            && is_letter_in_any_case(reply[2], 0x6b) {
            assert(ack =~= head);
        }
    }
}

/// An answer that is not well-formed UTF-8 is an invalid response of a
/// robot controller, whatever it opens with.
pub proof fn lemma_robot_malformed_text(reply: Seq<u8>)
    requires
        !valid_utf8(reply),
    ensures
        robot_outcome(reply) == ProbeOutcome::Failed(ProbeFailureReason::InvalidResponse),
{
}

} // verus!
