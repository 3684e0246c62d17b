use aerion_control::relay::{classify, publication, Publication, RelayCategory};
use aerion_control::turn::{relay_start, relay_step, RelayAction, RelayEvent, RelayState};

fn run(state: RelayState, events: &[RelayEvent]) -> (RelayState, Vec<RelayAction>) {
    let mut state = state;
    let mut actions = Vec::new();
    for event in events {
        let (next, action) = relay_step(state, event);
        state = next;
        actions.push(action);
    }
    (state, actions)
}

fn received(text: &str) -> RelayEvent {
    RelayEvent::Received(text.as_bytes().to_vec())
}

fn publish(event: &'static str, payload: &str) -> RelayAction {
    RelayAction::Publish(Publication { event, payload: payload.to_string() })
}

const REPLY: RelayAction = RelayAction::Reply { text: "OK" };

#[test]
fn messages_are_classified_by_their_leading_bytes() {
    assert_eq!(classify(br#"{"device_update": {"a": 1}}"#), RelayCategory::DeviceUpdate);
    assert_eq!(classify(br#"{"server_update": true}"#), RelayCategory::ServerUpdate);
    assert_eq!(classify(br#"{"clear_devices": null}"#), RelayCategory::ClearDevices);
    assert_eq!(classify(br#"{"device_update""#), RelayCategory::DeviceUpdate);
    assert_eq!(classify(br#"{"device_update"garbage"#), RelayCategory::DeviceUpdate);
}

#[test]
fn other_messages_are_unrecognized() {
    for message in [
        &b""[..],
        b"{",
        br#"{"device_update"#,
        br#"{"device_updates": 1}"#,
        br#" {"device_update": 1}"#,
        br#"{ "device_update": 1}"#,
        br#"{"Device_update": 1}"#,
        br#"{"DEVICE_UPDATE": 1}"#,
        br#"{"other": 1}"#,
        br#"{"server_updat": 1}"#,
        br#"{"clear_device": 1}"#,
        b"OK",
    ] {
        assert_eq!(classify(message), RelayCategory::Unrecognized, "{:?}", message);
    }
}

#[test]
fn message_that_is_not_text_is_unrecognized() {
    assert_eq!(classify(b"{\"device_update\": \"\xff\"}"), RelayCategory::Unrecognized);
    assert_eq!(classify(b"{\"server_update\"\xc3"), RelayCategory::Unrecognized);
    assert_eq!(publication(b"{\"clear_devices\": \"\xff\"}"), None);
}

#[test]
fn event_names_are_those_of_the_categories() {
    assert_eq!(RelayCategory::DeviceUpdate.event_name(), Some("device_update"));
    assert_eq!(RelayCategory::ServerUpdate.event_name(), Some("server_update"));
    assert_eq!(RelayCategory::ClearDevices.event_name(), Some("clear_devices"));
    assert_eq!(RelayCategory::Unrecognized.event_name(), None);
}

#[test]
fn publication_carries_the_message_verbatim() {
    let message = "{\"device_update\": {\"name\": \"Förderband ✓\", \"ok\": true}}  \n";
    assert_eq!(
        publication(message.as_bytes()),
        Some(Publication { event: "device_update", payload: message.to_string() })
    );
    assert_eq!(publication(br#"{"unknown": 1}"#), None);
}

#[test]
fn device_update_is_republished_once_and_answered_once() {
    let message = r#"{"device_update": {"name": "plc1", "connected": true}}"#;
    let events = [received(message), RelayEvent::Completed, RelayEvent::Completed];
    let (state, actions) = run(RelayState::Receiving, &events);
    assert_eq!(state, RelayState::Receiving);
    assert_eq!(actions, vec![publish("device_update", message), REPLY, RelayAction::Receive]);
}

#[test]
fn server_update_and_clear_devices_are_republished() {
    for (message, event) in [
        (r#"{"server_update": {"running": false}}"#, "server_update"),
        (r#"{"clear_devices": 1}"#, "clear_devices"),
    ] {
        let (state, action) = relay_step(RelayState::Receiving, &received(message));
        assert_eq!(state, RelayState::Republishing);
        assert_eq!(action, publish(event, message));
    }
}

#[test]
fn unrecognized_message_is_answered_without_event() {
    let events = [received(r#"{"something_else": 1}"#), RelayEvent::Completed];
    let (state, actions) = run(RelayState::Receiving, &events);
    assert_eq!(state, RelayState::Receiving);
    assert_eq!(actions, vec![REPLY, RelayAction::Receive]);
}

#[test]
fn malformed_message_is_answered_without_event() {
    let events = [RelayEvent::Received(vec![0xff, 0x00, 0x80]), RelayEvent::Completed];
    let (state, actions) = run(RelayState::Receiving, &events);
    assert_eq!(state, RelayState::Receiving);
    assert_eq!(actions, vec![REPLY, RelayAction::Receive]);
}

#[test]
fn failed_delivery_does_not_stall_the_session() {
    let message = r#"{"clear_devices": []}"#;
    let events = [received(message), RelayEvent::DeliveryFailed, RelayEvent::Completed];
    let (state, actions) = run(RelayState::Receiving, &events);
    assert_eq!(state, RelayState::Receiving);
    assert_eq!(actions, vec![publish("clear_devices", message), REPLY, RelayAction::Receive]);
}

#[test]
fn bridge_starts_by_receiving() {
    assert_eq!(relay_start(), (RelayState::Receiving, RelayAction::Receive));
    assert_eq!(
        relay_step(RelayState::Idle, &RelayEvent::Completed),
        (RelayState::Receiving, RelayAction::Receive)
    );
}

#[test]
fn transport_failure_stops_the_bridge() {
    assert_eq!(
        relay_step(RelayState::Receiving, &RelayEvent::TransportFailed),
        (RelayState::Stopped, RelayAction::Stop)
    );
    assert_eq!(
        relay_step(RelayState::Replying, &RelayEvent::TransportFailed),
        (RelayState::Stopped, RelayAction::Stop)
    );
    assert_eq!(
        relay_step(RelayState::Stopped, &received(r#"{"device_update": 1}"#)),
        (RelayState::Stopped, RelayAction::Stop)
    );
}

#[test]
fn replies_and_receives_take_turns_whatever_is_reported() {
    let events = [
        received(r#"{"device_update": 1}"#),
        received("noise"),
        RelayEvent::Completed,
        RelayEvent::DeliveryFailed,
    ];
    // All 4^6 ways to report six events to a bridge that waits for a message.
    for code in 0..4096u32 {
        let mut rest = code;
        let mut state = RelayState::Receiving;
        let mut owed = 0i32;
        let mut unanswered_publications = 0i32;
        for _ in 0..6 {
            let (next, action) = relay_step(state, &events[(rest % 4) as usize]);
            rest /= 4;
            state = next;
            match action {
                RelayAction::Reply { text } => {
                    assert_eq!(text, "OK");
                    owed += 1;
                    unanswered_publications = 0;
                },
                RelayAction::Receive => owed -= 1,
                RelayAction::Publish(_) => unanswered_publications += 1,
                RelayAction::Stop => {},
            }
            assert!(owed == 0 || owed == 1, "{}", code);
            assert!(unanswered_publications <= 1, "{}", code);
        }
    }
}
