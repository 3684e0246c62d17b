use aerion_control::device::DeviceType;
use aerion_control::probe::{
    judge_plc_response, judge_response, judge_robot_response, request_for, ProbeFailureReason,
    ProbeOutcome, ProbeReport, TimeoutKind, CONNECT_TIMEOUT_SECS, READ_CAPACITY,
    READ_TIMEOUT_SECS, WRITE_TIMEOUT_SECS,
};

fn plc_response(end_code: u16, data_length: u16, payload: [u8; 2]) -> Vec<u8> {
    let mut frame = vec![0xd0, 0x00, 0x00, 0xff, 0xff, 0x03, 0x00, 0x06, 0x00];
    frame.extend_from_slice(&end_code.to_le_bytes());
    frame.extend_from_slice(&data_length.to_le_bytes());
    frame.extend_from_slice(&payload);
    frame
}

fn failed(reason: ProbeFailureReason) -> ProbeOutcome {
    ProbeOutcome::Failed(reason)
}

#[test]
fn requests_are_the_fixed_wire_bytes() {
    assert_eq!(request_for(DeviceType::Robot), b"1;1;OPEN=ROBOT".to_vec());
    assert_eq!(
        request_for(DeviceType::Plc),
        vec![
            0x50, 0x00, 0x00, 0xff, 0xff, 0x03, 0x00, 0x0d, 0x00, 0x00, 0x00, 0x19, 0x06, 0x00,
            0x00, 0x02, 0x00, 0x41, 0x42
        ]
    );
}

#[test]
fn timeouts_and_capacity_are_fixed() {
    assert_eq!(CONNECT_TIMEOUT_SECS, 2);
    assert_eq!(READ_TIMEOUT_SECS, 2);
    assert_eq!(WRITE_TIMEOUT_SECS, 2);
    assert_eq!(READ_CAPACITY, 240);
}

#[test]
fn plc_correct_echo_succeeds() {
    assert_eq!(judge_plc_response(&plc_response(0, 2, *b"AB")), ProbeOutcome::Success);
    assert_eq!(
        judge_response(DeviceType::Plc, &plc_response(0, 2, *b"AB")),
        ProbeOutcome::Success
    );
    // The nine leading bytes are not looked at.
    let mut other_header = plc_response(0, 2, *b"AB");
    for byte in other_header.iter_mut().take(9) {
        *byte = 0x5a;
    }
    assert_eq!(judge_plc_response(&other_header), ProbeOutcome::Success);
}

#[test]
fn plc_wrong_length_is_invalid_response_length() {
    let expected = failed(ProbeFailureReason::InvalidResponseLength);
    assert_eq!(judge_plc_response(&[]), expected);
    assert_eq!(judge_plc_response(&plc_response(0, 2, *b"AB")[..14]), expected);
    let mut long = plc_response(0, 2, *b"AB");
    long.push(0);
    assert_eq!(judge_plc_response(&long), expected);
    assert_eq!(judge_plc_response(&[0u8; 240]), expected);
    // A frame of the wrong length is rejected for its length even if its
    // other fields are wrong too.
    assert_eq!(judge_plc_response(&plc_response(7, 9, *b"xy")[..3]), expected);
}

#[test]
fn plc_zero_length_read_does_not_crash() {
    assert_eq!(
        judge_response(DeviceType::Plc, &[]),
        failed(ProbeFailureReason::InvalidResponseLength)
    );
    assert_eq!(
        judge_response(DeviceType::Robot, &[]),
        failed(ProbeFailureReason::InvalidResponse)
    );
}

#[test]
fn plc_nonzero_end_code_is_reported() {
    let expected = failed(ProbeFailureReason::NonZeroEndCode);
    assert_eq!(judge_plc_response(&plc_response(1, 2, *b"AB")), expected);
    assert_eq!(judge_plc_response(&plc_response(0x0100, 2, *b"AB")), expected);
    assert_eq!(judge_plc_response(&plc_response(0xffff, 2, *b"AB")), expected);
    // The end code is judged before the data length and the echo.
    assert_eq!(judge_plc_response(&plc_response(0xc051, 0, *b"zz")), expected);
}

#[test]
fn plc_wrong_data_length_is_reported() {
    let expected = failed(ProbeFailureReason::InvalidDataLength);
    assert_eq!(judge_plc_response(&plc_response(0, 0, *b"AB")), expected);
    assert_eq!(judge_plc_response(&plc_response(0, 3, *b"AB")), expected);
    assert_eq!(judge_plc_response(&plc_response(0, 0x0200, *b"AB")), expected);
    assert_eq!(judge_plc_response(&plc_response(0, 0x0102, *b"AB")), expected);
    // The data length is judged before the echo.
    assert_eq!(judge_plc_response(&plc_response(0, 1, *b"zz")), expected);
}

#[test]
fn plc_mismatched_echo_is_reported() {
    let expected = failed(ProbeFailureReason::EchoMismatch);
    assert_eq!(judge_plc_response(&plc_response(0, 2, *b"BA")), expected);
    assert_eq!(judge_plc_response(&plc_response(0, 2, *b"Ab")), expected);
    assert_eq!(judge_plc_response(&plc_response(0, 2, *b"aB")), expected);
    assert_eq!(judge_plc_response(&plc_response(0, 2, [0, 0])), expected);
}

#[test]
fn robot_acknowledgement_in_any_case_succeeds() {
    for reply in ["qok", "QOK", "Qok", "qOK", "QoK", "qok;1;2;3", "QOK\r\n", "Qokay"] {
        assert_eq!(judge_robot_response(reply.as_bytes()), ProbeOutcome::Success, "{}", reply);
        assert_eq!(
            judge_response(DeviceType::Robot, reply.as_bytes()),
            ProbeOutcome::Success,
            "{}",
            reply
        );
    }
}

#[test]
fn robot_answer_padded_with_zeros_succeeds() {
    let mut buffer = [0u8; 240];
    buffer[..3].copy_from_slice(b"QoK");
    assert_eq!(judge_robot_response(&buffer), ProbeOutcome::Success);
}

#[test]
fn robot_other_answers_are_invalid_responses() {
    let expected = failed(ProbeFailureReason::InvalidResponse);
    for reply in ["", "q", "qo", "ok", " qok", "Qer", "QeR1", "kok", "qak", "qoc", "1;1;OPEN=ROBOT"] {
        assert_eq!(judge_robot_response(reply.as_bytes()), expected, "{:?}", reply);
    }
    // Letters with the bit of the lower case set that are no letters.
    assert_eq!(judge_robot_response(&[0x51, 0x4f, 0x0b]), expected);
    assert_eq!(judge_robot_response(&[0x11, 0x6f, 0x6b]), expected);
    // Bytes just outside the upper-case letters.
    assert_eq!(judge_robot_response(&[0x71, 0x6f, 0x5b ^ 0x20]), expected);
}

#[test]
fn robot_answer_that_is_not_text_is_an_invalid_response() {
    let expected = failed(ProbeFailureReason::InvalidResponse);
    assert_eq!(judge_robot_response(b"qok\xff"), expected);
    assert_eq!(judge_robot_response(b"QOK\xc3"), expected);
    assert_eq!(judge_robot_response(b"qok\xed\xa0\x80"), expected);
    assert_eq!(judge_robot_response(&[0xff, 0xfe]), expected);
    // Well-formed text of more than one byte a character is accepted.
    assert_eq!(judge_robot_response("qok ✓ äöü".as_bytes()), ProbeOutcome::Success);
}

#[test]
fn failure_messages_are_the_diagnostic_strings() {
    let cases = [
        (ProbeFailureReason::AddressError, "Unable to parse socket address"),
        (ProbeFailureReason::ConnectionFailed, "Couldnt connect to device"),
        (ProbeFailureReason::TimeoutConfigFailed(TimeoutKind::Write), "Couldn't set write timeout"),
        (ProbeFailureReason::TimeoutConfigFailed(TimeoutKind::Read), "Couldn't set read timeout"),
        (ProbeFailureReason::SendFailed, "Couldn't send message device"),
        (ProbeFailureReason::ReceiveFailed, "Couldn't receive answer from device"),
        (ProbeFailureReason::InvalidResponse, "Invalid answer from device"),
        (ProbeFailureReason::InvalidResponseLength, "Invalid answer from device"),
        (ProbeFailureReason::NonZeroEndCode, "Endcode != 0"),
        (ProbeFailureReason::InvalidDataLength, "Loopback data length invalid"),
        (ProbeFailureReason::EchoMismatch, "Loopback data invalid"),
        (ProbeFailureReason::UnsupportedDeviceType, "Invalid device type"),
        (ProbeFailureReason::ShutdownFailed, "Couldn't shutdown device"),
    ];
    for (reason, text) in cases {
        assert_eq!(reason.message(), text);
    }
}

#[test]
fn report_shows_failure_before_shutdown_trouble() {
    let clean = ProbeReport { outcome: ProbeOutcome::Success, shutdown_failed: false };
    assert_eq!(clean.reported_failure(), None);
    assert_eq!(clean.diagnostic(), None);

    let unclean = ProbeReport { outcome: ProbeOutcome::Success, shutdown_failed: true };
    assert_eq!(unclean.outcome, ProbeOutcome::Success);
    assert_eq!(unclean.reported_failure(), Some(ProbeFailureReason::ShutdownFailed));
    assert_eq!(unclean.diagnostic(), Some("Couldn't shutdown device".to_string()));

    for shutdown_failed in [false, true] {
        let report = ProbeReport {
            outcome: ProbeOutcome::Failed(ProbeFailureReason::EchoMismatch),
            shutdown_failed,
        };
        assert_eq!(report.reported_failure(), Some(ProbeFailureReason::EchoMismatch));
        assert_eq!(report.diagnostic(), Some("Loopback data invalid".to_string()));
    }
}
