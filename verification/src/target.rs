//! The device that a probe is aimed at.
//!
//! A device comes out of the registry as a JSON object.  A probe needs three
//! of its members: `Ip`, the host as text; `Port`, a whole number; and
//! `Type`, the name of the device type.

use crate::decimal::{append_digits, digits_of};
use crate::device::DeviceType;
use crate::json::{integer_of, json_of, json_parse, member, parse, Json};
use crate::probe::ProbeFailureReason;
use crate::registry::text_member_of;
use serde_json::Value;
use vstd::prelude::*;

verus! {

/// What a probe needs to know of a device.
#[derive(Clone, Debug, PartialEq, Eq)]
pub struct ProbeTarget {
    /// The kind of the device.
    pub device_type: DeviceType,
    /// The host of the device, as the registry spells it.
    pub host: String,
    /// The port of the device.
    pub port: u16,
}

/// What a probe target holds.
pub struct ProbeTargetView {
    /// The kind of the device.
    pub device_type: DeviceType,
    /// The host of the device.
    pub host: Seq<char>,
    /// The port of the device.
    pub port: u16,
}

impl View for ProbeTarget {
    type V = ProbeTargetView;

    open spec fn view(&self) -> ProbeTargetView {
        ProbeTargetView { device_type: self.device_type, host: self.host@, port: self.port }
    }
}

/// The port that a device names: a whole number from 0 to 65535.
pub open spec fn port_of(device: Json) -> Option<u16> {
    match device.member("Port"@) {
        None => None,
        Some(value) => match value.integer() {
            Some(port) => if 0 <= port <= u16::MAX {
                Some(port as u16)
            } else {
                None
            },
            None => None,
        },
    }
}

/// The device type that a device names.
pub open spec fn type_of(device: Json) -> Option<DeviceType> {
    match device.text_member("Type"@) {
        Some(name) => DeviceType::spec_from_name(name),
        None => None,
    }
}

/// The target that a device describes, or why it cannot be probed.
///
/// A device without a host or with no port in range has no address; that is
/// told before anything else.  A device whose type is missing or unknown is
/// of an unsupported type.
pub open spec fn spec_read_target(device: Json) -> Result<ProbeTargetView, ProbeFailureReason> {
    match (device.text_member("Ip"@), port_of(device)) {
        (Some(host), Some(port)) => match type_of(device) {
            Some(device_type) => Ok(ProbeTargetView { device_type, host, port }),
            None => Err(ProbeFailureReason::UnsupportedDeviceType),
        },
        _ => Err(ProbeFailureReason::AddressError),
    }
}

/// The target that the text of a device describes, or why it cannot be
/// probed.  A text that is no JSON value describes no address.
pub open spec fn spec_read_target_text(device: Seq<char>) -> Result<
    ProbeTargetView,
    ProbeFailureReason,
> {
    match json_parse(device) {
        Some(value) => spec_read_target(value),
        None => Err(ProbeFailureReason::AddressError),
    }
}

/// Whether `outcome` is the target, or the failure, that `expected`
/// describes.
pub open spec fn gives_target(
    outcome: Result<ProbeTarget, ProbeFailureReason>,
    expected: Result<ProbeTargetView, ProbeFailureReason>,
) -> bool {
    match outcome {
        Ok(target) => expected == Ok::<ProbeTargetView, ProbeFailureReason>(target@),
        Err(reason) => expected == Err::<ProbeTargetView, ProbeFailureReason>(reason),
    }
}

/// Reads from a device what a probe needs.
pub fn read_target_value(device: &Value) -> (r: Result<ProbeTarget, ProbeFailureReason>)
    ensures
        gives_target(r, spec_read_target(json_of(*device))),
{
    let host = match text_member_of(device, "Ip") {
        None => {
            return Err(ProbeFailureReason::AddressError);
        },
        Some(host) => host,
    };
    let number: i64 = match member(device, "Port") {
        None => {
            return Err(ProbeFailureReason::AddressError);
        },
        Some(value) => match integer_of(value) {
            None => {
                return Err(ProbeFailureReason::AddressError);
            },
            Some(number) => number,
        },
    };
    if number < 0 || number > 65535 {
        return Err(ProbeFailureReason::AddressError);
    }
    let device_type = match text_member_of(device, "Type") {
        None => {
            return Err(ProbeFailureReason::UnsupportedDeviceType);
        },
        Some(name) => match DeviceType::from_name(name) {
            None => {
                return Err(ProbeFailureReason::UnsupportedDeviceType);
            },
            Some(device_type) => device_type,
        },
    };
    Ok(ProbeTarget { device_type, host: String::from_str(host), port: number as u16 })
}

/// Reads from the text of a device what a probe needs.
pub fn read_target(device: &str) -> (r: Result<ProbeTarget, ProbeFailureReason>)
    ensures
        gives_target(r, spec_read_target_text(device@)),
{
    match parse(device) {
        None => Err(ProbeFailureReason::AddressError),
        Some(value) => read_target_value(&value),
    }
}

impl ProbeTarget {
    /// The address of the target as text: the host, a colon and the port in
    /// decimal.
    pub open spec fn spec_address(self) -> Seq<char> {
        self.host@ + seq![':'] + digits_of(self.port as nat)
    }

    /// The address of the target as text, for resolving.
    pub fn address(&self) -> (text: String)
        ensures
            text@ == self.spec_address(),
    {
        proof {
            reveal_strlit(":");
        }
        let mut text = String::from_str(self.host.as_str());
        text.append(":");
        assert(text@ =~= self.host@ + seq![':']);
        append_digits(&mut text, self.port as u64);
        text
    }
}

} // verus!
