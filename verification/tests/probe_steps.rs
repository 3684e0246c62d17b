use aerion_control::device::DeviceType;
use aerion_control::handshake::{probe_start, probe_step, ProbeAction, ProbeEvent, ProbeState};
use aerion_control::probe::{ProbeFailureReason, ProbeOutcome, ProbeReport, TimeoutKind};

fn run(device_type: DeviceType, events: &[ProbeEvent]) -> (ProbeState, Vec<ProbeAction>) {
    let (mut state, first) = probe_start();
    let mut actions = vec![first];
    for event in events {
        let (next, action) = probe_step(device_type, state, event);
        state = next;
        actions.push(action);
    }
    (state, actions)
}

fn report(outcome: ProbeOutcome, shutdown_failed: bool) -> ProbeReport {
    ProbeReport { outcome, shutdown_failed }
}

fn plc_echo() -> Vec<u8> {
    vec![0xd0, 0, 0, 0xff, 0xff, 3, 0, 6, 0, 0, 0, 2, 0, 0x41, 0x42]
}

const DONE: ProbeEvent = ProbeEvent::Completed;

#[test]
fn probe_of_echoing_plc_succeeds() {
    let events = [DONE, DONE, DONE, DONE, DONE, ProbeEvent::Received(plc_echo()), DONE];
    let (state, actions) = run(DeviceType::Plc, &events);
    let expected = report(ProbeOutcome::Success, false);
    assert_eq!(state, ProbeState::Finished(expected));
    assert_eq!(
        actions,
        vec![
            ProbeAction::Resolve,
            ProbeAction::Connect { timeout_secs: 2 },
            ProbeAction::SetWriteTimeout { timeout_secs: 2 },
            ProbeAction::SetReadTimeout { timeout_secs: 2 },
            ProbeAction::SendRequest { device_type: DeviceType::Plc },
            ProbeAction::Receive { capacity: 240 },
            ProbeAction::Shutdown,
            ProbeAction::Report(expected),
        ]
    );
}

#[test]
fn probe_of_acknowledging_robot_succeeds() {
    let events = [DONE, DONE, DONE, DONE, DONE, ProbeEvent::Received(b"QOK".to_vec()), DONE];
    let (state, actions) = run(DeviceType::Robot, &events);
    assert_eq!(state, ProbeState::Finished(report(ProbeOutcome::Success, false)));
    assert_eq!(actions[4], ProbeAction::SendRequest { device_type: DeviceType::Robot });
}

#[test]
fn unresolvable_address_ends_probe_with_address_error() {
    let (state, actions) = run(DeviceType::Plc, &[ProbeEvent::Failed]);
    let expected = report(ProbeOutcome::Failed(ProbeFailureReason::AddressError), false);
    assert_eq!(state, ProbeState::Finished(expected));
    assert_eq!(actions, vec![ProbeAction::Resolve, ProbeAction::Report(expected)]);
}

#[test]
fn unreachable_address_ends_probe_with_connection_failed() {
    let (state, actions) = run(DeviceType::Robot, &[DONE, ProbeEvent::Failed]);
    let expected = report(ProbeOutcome::Failed(ProbeFailureReason::ConnectionFailed), false);
    assert_eq!(state, ProbeState::Finished(expected));
    assert_eq!(
        actions,
        vec![
            ProbeAction::Resolve,
            ProbeAction::Connect { timeout_secs: 2 },
            ProbeAction::Report(expected),
        ]
    );
}

#[test]
fn failures_on_a_connection_lead_through_shutdown() {
    let cases: [(Vec<ProbeEvent>, ProbeFailureReason); 5] = [
        (
            vec![DONE, DONE, ProbeEvent::Failed],
            ProbeFailureReason::TimeoutConfigFailed(TimeoutKind::Write),
        ),
        (
            vec![DONE, DONE, DONE, ProbeEvent::Failed],
            ProbeFailureReason::TimeoutConfigFailed(TimeoutKind::Read),
        ),
        (vec![DONE, DONE, DONE, DONE, ProbeEvent::Failed], ProbeFailureReason::SendFailed),
        (
            vec![DONE, DONE, DONE, DONE, DONE, ProbeEvent::Failed],
            ProbeFailureReason::ReceiveFailed,
        ),
        (
            vec![DONE, DONE, DONE, DONE, DONE, ProbeEvent::Received(vec![])],
            ProbeFailureReason::InvalidResponseLength,
        ),
    ];
    for (events, reason) in cases {
        let (state, actions) = run(DeviceType::Plc, &events);
        assert_eq!(state, ProbeState::Closing(ProbeOutcome::Failed(reason)));
        assert_eq!(actions.last(), Some(&ProbeAction::Shutdown));

        let (closed, action) = probe_step(DeviceType::Plc, state, &DONE);
        let expected = report(ProbeOutcome::Failed(reason), false);
        assert_eq!(closed, ProbeState::Finished(expected));
        assert_eq!(action, ProbeAction::Report(expected));

        let (closed, _) = probe_step(DeviceType::Plc, state, &ProbeEvent::Failed);
        assert_eq!(closed, ProbeState::Finished(report(ProbeOutcome::Failed(reason), true)));
    }
}

#[test]
fn failed_shutdown_does_not_override_success() {
    let events =
        [DONE, DONE, DONE, DONE, DONE, ProbeEvent::Received(plc_echo()), ProbeEvent::Failed];
    let (state, _) = run(DeviceType::Plc, &events);
    let expected = report(ProbeOutcome::Success, true);
    assert_eq!(state, ProbeState::Finished(expected));
    assert_eq!(expected.reported_failure(), Some(ProbeFailureReason::ShutdownFailed));
}

#[test]
fn read_reported_without_data_counts_as_failed() {
    let events = [DONE, DONE, DONE, DONE, DONE, DONE];
    let (state, _) = run(DeviceType::Robot, &events);
    assert_eq!(state, ProbeState::Closing(ProbeOutcome::Failed(ProbeFailureReason::ReceiveFailed)));
}

#[test]
fn data_reported_for_another_action_counts_as_failure() {
    let (state, _) = run(DeviceType::Robot, &[DONE, ProbeEvent::Received(b"qok".to_vec())]);
    assert_eq!(
        state,
        ProbeState::Finished(report(
            ProbeOutcome::Failed(ProbeFailureReason::ConnectionFailed),
            false
        ))
    );
}

#[test]
fn finished_probe_stays_finished() {
    let done = report(ProbeOutcome::Failed(ProbeFailureReason::EchoMismatch), true);
    for event in [DONE, ProbeEvent::Failed, ProbeEvent::Received(vec![1, 2, 3])] {
        let (state, action) = probe_step(DeviceType::Plc, ProbeState::Finished(done), &event);
        assert_eq!(state, ProbeState::Finished(done));
        assert_eq!(action, ProbeAction::Report(done));
    }
}

#[test]
fn every_probe_is_finished_after_seven_events() {
    let events = [DONE, ProbeEvent::Failed, ProbeEvent::Received(b"qok".to_vec())];
    // All 3^7 ways to report seven events.
    for code in 0..2187u32 {
        let mut rest = code;
        let (mut state, _) = probe_start();
        let mut blocked = 0;
        for _ in 0..7 {
            let (next, action) = probe_step(DeviceType::Robot, state, &events[(rest % 3) as usize]);
            rest /= 3;
            state = next;
            blocked += match action {
                ProbeAction::Connect { timeout_secs } => timeout_secs,
                ProbeAction::SendRequest { .. } | ProbeAction::Receive { .. } => 2,
                _ => 0,
            };
        }
        assert!(matches!(state, ProbeState::Finished(_)), "{}", code);
        assert!(blocked <= 6, "{}", code);
    }
}
