//! The event relay bridge.
//!
//! The bridge is the replying side of a strict request/reply session with
//! the server process.  A turn is: receive one message, classify it by its
//! leading bytes, republish it under the event name of its category if it
//! has one, and send the acknowledgement.  This module holds the
//! classification and the order of a turn; the caller owns the session and
//! the subscribers.

use crate::text::{ascii_bytes, bytes_of, starts_with, text_of_bytes};
use vstd::prelude::*;
use vstd::string::StringSliceAdditionalSpecFns;
use vstd::utf8::{decode_utf8, encode_utf8, encode_utf8_decode_utf8, valid_utf8};

verus! {

/// The category of a notification, told by the key that opens it.
#[derive(Clone, Copy, Debug, PartialEq, Eq, Structural)]
pub enum RelayCategory {
    /// The state of a device changed.
    DeviceUpdate,
    /// The state of the server changed.
    ServerUpdate,
    /// All devices are to be forgotten.
    ClearDevices,
    /// Anything else, text that is not well-formed UTF-8 included.
    Unrecognized,
}

/// The leading bytes of a device update.
pub open spec fn device_update_tag() -> Seq<u8> {
    ascii_bytes("{\"device_update\""@)
}

/// The leading bytes of a server update.
pub open spec fn server_update_tag() -> Seq<u8> {
    ascii_bytes("{\"server_update\""@)
}

/// The leading bytes of a request to clear the devices.
pub open spec fn clear_devices_tag() -> Seq<u8> {
    ascii_bytes("{\"clear_devices\""@)
}

/// The acknowledgement that ends every turn.
pub open spec fn acknowledgement() -> Seq<char> {
    "OK"@
}

/// The category of a message: that of the first tag it begins with, if it
/// is well-formed UTF-8 and begins with one.
pub open spec fn spec_classify(message: Seq<u8>) -> RelayCategory {
    if !valid_utf8(message) {
        RelayCategory::Unrecognized
    } else if device_update_tag().is_prefix_of(message) {
        RelayCategory::DeviceUpdate
    } else if server_update_tag().is_prefix_of(message) {
        RelayCategory::ServerUpdate
    } else if clear_devices_tag().is_prefix_of(message) {
        RelayCategory::ClearDevices
    } else {
        RelayCategory::Unrecognized
    }
}

impl RelayCategory {
    /// The name of the event under which messages of the category are
    /// republished; unrecognized messages have none.
    pub open spec fn spec_event_name(self) -> Option<Seq<char>> {
        match self {
            RelayCategory::DeviceUpdate => Some("device_update"@),
            RelayCategory::ServerUpdate => Some("server_update"@),
            RelayCategory::ClearDevices => Some("clear_devices"@),
            RelayCategory::Unrecognized => None,
        }
    }

    /// The name of the event under which messages of the category are
    /// republished, if they are.
    pub fn event_name(self) -> (r: Option<&'static str>)
        ensures
            r is Some <==> self.spec_event_name() is Some,
            r matches Some(name) ==> Some(name@) == self.spec_event_name(),
    {
        match self {
            RelayCategory::DeviceUpdate => Some("device_update"),
            RelayCategory::ServerUpdate => Some("server_update"),
            RelayCategory::ClearDevices => Some("clear_devices"),
            RelayCategory::Unrecognized => None,
        }
    }
}

/// Classifies a message by its leading bytes.
pub fn classify(message: &[u8]) -> (category: RelayCategory)
    ensures
        category == spec_classify(message@),
{
    proof {
        reveal_strlit("{\"device_update\"");
        reveal_strlit("{\"server_update\"");
        reveal_strlit("{\"clear_devices\"");
    }
    if text_of_bytes(message).is_none() {
        RelayCategory::Unrecognized
    } else if starts_with(message, bytes_of("{\"device_update\"")) {
        RelayCategory::DeviceUpdate
    } else if starts_with(message, bytes_of("{\"server_update\"")) {
        RelayCategory::ServerUpdate
    } else if starts_with(message, bytes_of("{\"clear_devices\"")) {
        RelayCategory::ClearDevices
    } else {
        RelayCategory::Unrecognized
    }
}

/// An event for the subscribers: its name and, as payload, the message that
/// caused it.
#[derive(Clone, Debug, PartialEq, Eq)]
pub struct Publication {
    /// The name of the event.
    pub event: &'static str,
    /// The text of the message, as it was received.
    pub payload: String,
}

/// What a publication holds.
pub struct PublicationView {
    /// The name of the event.
    pub event: Seq<char>,
    /// The text of the message.
    pub payload: Seq<char>,
}

impl View for Publication {
    type V = PublicationView;

    open spec fn view(&self) -> PublicationView {
        PublicationView { event: self.event@, payload: self.payload@ }
    }
}

/// The publication that a message causes: under the event name of its
/// category, the text that the message encodes.  Messages without a
/// category cause none.
pub open spec fn spec_publication(message: Seq<u8>) -> Option<PublicationView> {
    match spec_classify(message).spec_event_name() {
        Some(event) => Some(PublicationView { event, payload: decode_utf8(message) }),
        None => None,
    }
}

/// The publication that a message causes, if it causes one.
pub fn publication(message: &[u8]) -> (r: Option<Publication>)
    ensures
        r is Some <==> spec_publication(message@) is Some,
        r matches Some(p) ==> Some(p@) == spec_publication(message@),
{
    broadcast use encode_utf8_decode_utf8;

    match classify(message).event_name() {
        None => None,
        Some(event) => match text_of_bytes(message) {
            None => None,
            Some(text) => {
                assert(decode_utf8(encode_utf8(text@)) == text@);
                Some(Publication { event, payload: String::from_str(text) })
            },
        },
    }
}

/// The payload of a publication is the message itself: encoded again, it
/// gives the bytes that were received.
pub proof fn lemma_payload_is_verbatim(message: Seq<u8>)
    requires
        spec_publication(message) is Some,
    ensures
        encode_utf8(spec_publication(message)->0.payload) == message,
{
    vstd::utf8::decode_utf8_encode_utf8(message);
}

} // verus!
