//! The devices that the gateway monitors.

use crate::text::str_eq;
use vstd::prelude::*;

verus! {

/// The kind of a device; it selects the protocol of the connectivity probe.
#[derive(Clone, Copy, Debug, PartialEq, Eq, Structural)]
pub enum DeviceType {
    /// A robot controller, probed with a text handshake.
    Robot,
    /// A programmable logic controller, probed with a loopback frame.
    Plc,
}

impl DeviceType {
    /// The device type that a registry entry names, if it names one.
    pub open spec fn spec_from_name(name: Seq<char>) -> Option<DeviceType> {
        if name == "Robot"@ {
            Some(DeviceType::Robot)
        } else if name == "PLC"@ {
            Some(DeviceType::Plc)
        } else {
            None
        }
    }

    /// The name under which the registry stores the device type.
    pub open spec fn spec_name(self) -> Seq<char> {
        match self {
            DeviceType::Robot => "Robot"@,
            DeviceType::Plc => "PLC"@,
        }
    }

    /// Reads a device type from the name that the registry stores.  Names
    /// are case-sensitive; any other text names no device type.
    pub fn from_name(name: &str) -> (r: Option<DeviceType>)
        ensures
            r == Self::spec_from_name(name@),
    {
        if str_eq(name, "Robot") {
            Some(DeviceType::Robot)
        } else if str_eq(name, "PLC") {
            Some(DeviceType::Plc)
        } else {
            None
        }
    }

    /// The name under which the registry stores the device type.
    pub fn name(self) -> (r: &'static str)
        ensures
            r@ == self.spec_name(),
    {
        match self {
            DeviceType::Robot => "Robot",
            DeviceType::Plc => "PLC",
        }
    }

    /// Every device type is read back from its own name.
    pub proof fn lemma_name_round_trip(self)
        ensures
            Self::spec_from_name(self.spec_name()) == Some(self),
    {
        reveal_strlit("Robot");
        reveal_strlit("PLC");
        assert("Robot"@.len() != "PLC"@.len());
    }
}

} // verus!
