//! The order of a probe's steps.
//!
//! A probe alternates work on a socket with decisions.  The decisions are
//! the function [`probe_step`]: from the state of the probe and the event
//! that ended the last action it gives the next state and the next action.
//! The caller performs the action, reports the event and repeats until the
//! action is a report.

use crate::device::DeviceType;
use crate::probe::{
    judge_response, response_outcome, ProbeFailureReason, ProbeOutcome, ProbeReport, TimeoutKind,
    CONNECT_TIMEOUT_SECS, READ_CAPACITY, READ_TIMEOUT_SECS, WRITE_TIMEOUT_SECS,
};
use vstd::prelude::*;

verus! {

/// Where a probe stands: the action that it waits for, or its end.
#[derive(Clone, Copy, Debug, PartialEq, Eq, Structural)]
pub enum ProbeState {
    /// The device's address is being resolved.
    Resolving,
    /// The connection is being established.
    Connecting,
    /// The write timeout is being set.
    SettingWriteTimeout,
    /// The read timeout is being set.
    SettingReadTimeout,
    /// The request is being sent.
    Sending,
    /// The answer is being read.
    Receiving,
    /// The connection is being shut down; the outcome is already decided.
    Closing(ProbeOutcome),
    /// The probe is over.
    Finished(ProbeReport),
}

/// How the action that a probe waited for ended.
#[derive(Clone, Debug, PartialEq, Eq)]
pub enum ProbeEvent {
    /// The action succeeded and brought no data.
    Completed,
    /// The action failed or timed out.
    Failed,
    /// The read succeeded and brought these bytes, which may be none.
    Received(Vec<u8>),
}

/// What the caller does next for a probe.
#[derive(Clone, Copy, Debug, PartialEq, Eq, Structural)]
pub enum ProbeAction {
    /// Resolve the device's host and port to a socket address.
    Resolve,
    /// Connect to the address, giving up after the timeout.
    Connect { timeout_secs: u64 },
    /// Set the timeout for writes on the connection.
    SetWriteTimeout { timeout_secs: u64 },
    /// Set the timeout for reads on the connection.
    SetReadTimeout { timeout_secs: u64 },
    /// Send the whole request of the device's type.
    SendRequest { device_type: DeviceType },
    /// Read once, at most `capacity` bytes.
    Receive { capacity: usize },
    /// Shut the connection down in both directions.
    Shutdown,
    /// Hand the report to whoever asked for the probe; nothing follows.
    Report(ProbeReport),
}

/// The report of a probe that ended before a connection stood.
pub open spec fn unconnected_failure(reason: ProbeFailureReason) -> ProbeReport {
    ProbeReport { outcome: ProbeOutcome::Failed(reason), shutdown_failed: false }
}

/// The state and the first action of a new probe.
pub open spec fn spec_probe_start() -> (ProbeState, ProbeAction) {
    (ProbeState::Resolving, ProbeAction::Resolve)
}

/// The state and the action that follow `state` on `event`.
///
/// Every action but the read counts as failed unless it is reported
/// `Completed`; the read counts as failed unless it is reported `Received`.
/// Once a connection stands, every path leads through `Shutdown`.  A
/// finished probe stays finished and repeats its report.
pub open spec fn spec_probe_step(device_type: DeviceType, state: ProbeState, event: ProbeEvent) -> (
    ProbeState,
    ProbeAction,
) {
    let done = event is Completed;
    match state {
        ProbeState::Resolving => if done {
            (ProbeState::Connecting, ProbeAction::Connect { timeout_secs: CONNECT_TIMEOUT_SECS })
        } else {
            let report = unconnected_failure(ProbeFailureReason::AddressError);
            (ProbeState::Finished(report), ProbeAction::Report(report))
        },
        ProbeState::Connecting => if done {
            (
                ProbeState::SettingWriteTimeout,
                ProbeAction::SetWriteTimeout { timeout_secs: WRITE_TIMEOUT_SECS },
            )
        } else {
            let report = unconnected_failure(ProbeFailureReason::ConnectionFailed);
            (ProbeState::Finished(report), ProbeAction::Report(report))
        },
        ProbeState::SettingWriteTimeout => if done {
            (
                ProbeState::SettingReadTimeout,
                ProbeAction::SetReadTimeout { timeout_secs: READ_TIMEOUT_SECS },
            )
        } else {
            (
                ProbeState::Closing(
                    ProbeOutcome::Failed(
                        ProbeFailureReason::TimeoutConfigFailed(TimeoutKind::Write),
                    ),
                ),
                ProbeAction::Shutdown,
            )
        },
        ProbeState::SettingReadTimeout => if done {
            (ProbeState::Sending, ProbeAction::SendRequest { device_type })
        } else {
            (
                ProbeState::Closing(
                    ProbeOutcome::Failed(ProbeFailureReason::TimeoutConfigFailed(TimeoutKind::Read)),
                ),
                ProbeAction::Shutdown,
            )
        },
        ProbeState::Sending => if done {
            (ProbeState::Receiving, ProbeAction::Receive { capacity: READ_CAPACITY })
        } else {
            (
                ProbeState::Closing(ProbeOutcome::Failed(ProbeFailureReason::SendFailed)),
                ProbeAction::Shutdown,
            )
        },
        ProbeState::Receiving => match event {
            ProbeEvent::Received(reply) => (
                ProbeState::Closing(response_outcome(device_type, reply@)),
                ProbeAction::Shutdown,
            ),
            _ => (
                ProbeState::Closing(ProbeOutcome::Failed(ProbeFailureReason::ReceiveFailed)),
                ProbeAction::Shutdown,
            ),
        },
        ProbeState::Closing(outcome) => {
            let report = ProbeReport { outcome, shutdown_failed: !done };
            (ProbeState::Finished(report), ProbeAction::Report(report))
        },
        ProbeState::Finished(report) => (ProbeState::Finished(report), ProbeAction::Report(report)),
    }
}

/// Starts a probe: gives its first state and the first action to perform.
pub fn probe_start() -> (r: (ProbeState, ProbeAction))
    ensures
        r == spec_probe_start(),
{
    (ProbeState::Resolving, ProbeAction::Resolve)
}

/// Advances a probe of a device of type `device_type`: takes the event that
/// ended the action the probe waited for in `state`, and gives the next
/// state and the next action.
pub fn probe_step(device_type: DeviceType, state: ProbeState, event: &ProbeEvent) -> (r: (
    ProbeState,
    ProbeAction,
))
    ensures
        r == spec_probe_step(device_type, state, *event),
{
    let done: bool = match event {
        ProbeEvent::Completed => true,
        _ => false,
    };
    match state {
        ProbeState::Resolving => if done {
            (ProbeState::Connecting, ProbeAction::Connect { timeout_secs: CONNECT_TIMEOUT_SECS })
        } else {
            let report = ProbeReport {
                outcome: ProbeOutcome::Failed(ProbeFailureReason::AddressError),
                shutdown_failed: false,
            };
            (ProbeState::Finished(report), ProbeAction::Report(report))
        },
        ProbeState::Connecting => if done {
            (
                ProbeState::SettingWriteTimeout,
                ProbeAction::SetWriteTimeout { timeout_secs: WRITE_TIMEOUT_SECS },
            )
        } else {
            let report = ProbeReport {
                outcome: ProbeOutcome::Failed(ProbeFailureReason::ConnectionFailed),
                shutdown_failed: false,
            };
            (ProbeState::Finished(report), ProbeAction::Report(report))
        },
        ProbeState::SettingWriteTimeout => if done {
            (
                ProbeState::SettingReadTimeout,
                ProbeAction::SetReadTimeout { timeout_secs: READ_TIMEOUT_SECS },
            )
        } else {
            (
                ProbeState::Closing(
                    ProbeOutcome::Failed(
                        ProbeFailureReason::TimeoutConfigFailed(TimeoutKind::Write),
                    ),
                ),
                ProbeAction::Shutdown,
            )
        },
        ProbeState::SettingReadTimeout => if done {
            (ProbeState::Sending, ProbeAction::SendRequest { device_type })
        } else {
            (
                ProbeState::Closing(
                    ProbeOutcome::Failed(ProbeFailureReason::TimeoutConfigFailed(TimeoutKind::Read)),
                ),
                ProbeAction::Shutdown,
            )
        },
        ProbeState::Sending => if done {
            (ProbeState::Receiving, ProbeAction::Receive { capacity: READ_CAPACITY })
        } else {
            (
                ProbeState::Closing(ProbeOutcome::Failed(ProbeFailureReason::SendFailed)),
                ProbeAction::Shutdown,
            )
        },
        ProbeState::Receiving => match event {
            ProbeEvent::Received(reply) => (
                ProbeState::Closing(judge_response(device_type, reply.as_slice())),
                ProbeAction::Shutdown,
            ),
            _ => (
                ProbeState::Closing(ProbeOutcome::Failed(ProbeFailureReason::ReceiveFailed)),
                ProbeAction::Shutdown,
            ),
        },
        ProbeState::Closing(outcome) => {
            let report = ProbeReport { outcome, shutdown_failed: !done };
            (ProbeState::Finished(report), ProbeAction::Report(report))
        },
        ProbeState::Finished(report) => (ProbeState::Finished(report), ProbeAction::Report(report)),
    }
}

/// The state that a probe reaches from `state` when the events of `events`
/// are reported one after the other.
pub open spec fn spec_probe_run(device_type: DeviceType, state: ProbeState, events: Seq<ProbeEvent>) -> ProbeState
    decreases events.len(),
{
    if events.len() == 0 {
        state
    } else {
        spec_probe_run(
            device_type,
            spec_probe_step(device_type, state, events[0]).0,
            events.drop_first(),
        )
    }
}

/// The number of events that a probe in `state` takes at most before it is
/// finished.
pub open spec fn steps_left(state: ProbeState) -> nat {
    match state {
        ProbeState::Resolving => 7,
        ProbeState::Connecting => 6,
        ProbeState::SettingWriteTimeout => 5,
        ProbeState::SettingReadTimeout => 4,
        ProbeState::Sending => 3,
        ProbeState::Receiving => 2,
        ProbeState::Closing(_) => 1,
        ProbeState::Finished(_) => 0,
    }
}

/// The seconds for which an action may block: the timeout under which it
/// runs.  Resolving, setting a timeout, shutting down and reporting do not
/// wait for the device.
pub open spec fn blocking_secs(action: ProbeAction) -> nat {
    match action {
        ProbeAction::Connect { timeout_secs } => timeout_secs as nat,
        ProbeAction::SendRequest { .. } => WRITE_TIMEOUT_SECS as nat,
        ProbeAction::Receive { .. } => READ_TIMEOUT_SECS as nat,
        _ => 0,
    }
}

/// The seconds for which the actions may block that a probe in `state` asks
/// for while the events of `events` are reported.
pub open spec fn spec_blocking_total(device_type: DeviceType, state: ProbeState, events: Seq<ProbeEvent>) -> nat
    decreases events.len(),
{
    if events.len() == 0 {
        0
    } else {
        let next = spec_probe_step(device_type, state, events[0]);
        blocking_secs(next.1) + spec_blocking_total(device_type, next.0, events.drop_first())
    }
}

/// The seconds for which a probe in `state` may still block.
pub open spec fn blocking_left(state: ProbeState) -> nat {
    match state {
        ProbeState::Resolving => 6,
        ProbeState::Connecting => 4,
        ProbeState::SettingWriteTimeout => 4,
        ProbeState::SettingReadTimeout => 4,
        ProbeState::Sending => 2,
        _ => 0,
    }
}

/// Every step brings a probe nearer to its end: a probe in `state` is
/// finished once `steps_left(state)` events have been reported, whatever
/// they are.
pub proof fn lemma_probe_finishes(device_type: DeviceType, state: ProbeState, events: Seq<ProbeEvent>)
    requires
        events.len() >= steps_left(state),
    ensures
        spec_probe_run(device_type, state, events) is Finished,
    decreases events.len(),
{
    if events.len() > 0 {
        let next = spec_probe_step(device_type, state, events[0]).0;
        lemma_probe_finishes(device_type, next, events.drop_first());
    }
}

/// A new probe is finished after seven events at most.
pub proof fn lemma_new_probe_finishes(device_type: DeviceType, events: Seq<ProbeEvent>)
    requires
        events.len() >= 7,
    ensures
        spec_probe_run(device_type, spec_probe_start().0, events) is Finished,
{
    lemma_probe_finishes(device_type, ProbeState::Resolving, events);
}

/// The actions of a probe block for no longer than the probe in `state` may
/// still block, whatever events are reported.
pub proof fn lemma_blocking_bounded(device_type: DeviceType, state: ProbeState, events: Seq<ProbeEvent>)
    ensures
        spec_blocking_total(device_type, state, events) <= blocking_left(state),
    decreases events.len(),
{
    if events.len() > 0 {
        let next = spec_probe_step(device_type, state, events[0]);
        lemma_blocking_bounded(device_type, next.0, events.drop_first());
    }
}

/// In all, a probe blocks for no longer than the connect, write and read
/// timeouts together.
pub proof fn lemma_probe_blocking_bounded(device_type: DeviceType, events: Seq<ProbeEvent>)
    ensures
        blocking_secs(spec_probe_start().1) + spec_blocking_total(
            device_type,
            spec_probe_start().0,
            events,
        ) <= CONNECT_TIMEOUT_SECS + WRITE_TIMEOUT_SECS + READ_TIMEOUT_SECS,
{
    lemma_blocking_bounded(device_type, ProbeState::Resolving, events);
}

/// A connection that cannot be established ends the probe at once with
/// `ConnectionFailed`: nothing is sent, read or shut down.
pub proof fn lemma_connect_failure_ends_probe(device_type: DeviceType, event: ProbeEvent)
    requires
        !(event is Completed),
    ensures
        spec_probe_step(device_type, ProbeState::Connecting, event) == (
            ProbeState::Finished(unconnected_failure(ProbeFailureReason::ConnectionFailed)),
            ProbeAction::Report(unconnected_failure(ProbeFailureReason::ConnectionFailed)),
        ),
{
}

/// The events of a probe in which every action succeeds and the device
/// answers `reply`; `shutdown` is the event that ends the shutdown.
pub open spec fn answered_probe(reply: Vec<u8>, shutdown: ProbeEvent) -> Seq<ProbeEvent> {
    seq![
        ProbeEvent::Completed,
        ProbeEvent::Completed,
        ProbeEvent::Completed,
        ProbeEvent::Completed,
        ProbeEvent::Completed,
        ProbeEvent::Received(reply),
        shutdown,
    ]
}

/// A probe in which every action up to the read succeeds reports the
/// judgement of the device's answer, whether or not the shutdown succeeds;
/// a failed shutdown is noted beside the outcome.
pub proof fn lemma_answered_probe_reports_judgement(
    device_type: DeviceType,
    reply: Vec<u8>,
    shutdown: ProbeEvent,
)
    ensures
        spec_probe_run(device_type, spec_probe_start().0, answered_probe(reply, shutdown))
            == ProbeState::Finished(
            ProbeReport {
                outcome: response_outcome(device_type, reply@),
                shutdown_failed: !(shutdown is Completed),
            },
        ),
{
    let e0 = answered_probe(reply, shutdown);
    let e1 = e0.drop_first();
    let e2 = e1.drop_first();
    let e3 = e2.drop_first();
    let e4 = e3.drop_first();
    let e5 = e4.drop_first();
    let e6 = e5.drop_first();
    let e7 = e6.drop_first();
    assert(e7.len() == 0);
    assert(e5[0] == ProbeEvent::Received(reply));
    assert(e6[0] == shutdown);
    reveal_with_fuel(spec_probe_run, 8);
}

} // verus!
