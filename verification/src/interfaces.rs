//! The network interfaces of the machine, as the presentation layer wants
//! them: a JSON list with, for each interface, its name, its hardware
//! address, and one IPv4 and one IPv6 address.
//!
//! The caller asks the system for the interfaces and hands them over as
//! plain values; this module chooses and writes.

use crate::lookup::{lemma_lookup_absent, lemma_lookup_at, lookup, Lookup};
use vstd::prelude::*;

verus! {

/// The family of an address.
#[derive(Clone, Copy, Debug, PartialEq, Eq, Structural)]
pub enum AddressFamily {
    /// Internet protocol, version 4.
    IPv4,
    /// Internet protocol, version 6.
    IPv6,
    /// A link-layer address.
    Link,
    /// A packet socket address.
    Packet,
    /// A family that the system names and this list does not.
    Unknown,
}

/// One address of an interface.
#[derive(Clone, Debug, PartialEq, Eq)]
pub struct InterfaceAddress {
    /// The family of the address.
    pub family: AddressFamily,
    /// The address as text, where the system gave one.
    pub address: Option<String>,
    /// The network mask as text, where the system gave one.
    pub mask: Option<String>,
}

/// A network interface.
#[derive(Clone, Debug, PartialEq, Eq)]
pub struct Interface {
    /// The name of the interface.
    pub name: String,
    /// The hardware address of the interface.
    pub mac: String,
    /// The addresses of the interface, in the order of the system.
    pub addresses: Vec<InterfaceAddress>,
}

/// What an address of an interface holds.
pub struct InterfaceAddressView {
    /// The family of the address.
    pub family: AddressFamily,
    /// The address as text.
    pub address: Option<Seq<char>>,
    /// The network mask as text.
    pub mask: Option<Seq<char>>,
}

/// What an interface holds.
pub struct InterfaceView {
    /// The name of the interface.
    pub name: Seq<char>,
    /// The hardware address of the interface.
    pub mac: Seq<char>,
    /// The addresses of the interface.
    pub addresses: Seq<InterfaceAddressView>,
}

/// The text of an optional text.
pub open spec fn text_view(text: Option<String>) -> Option<Seq<char>> {
    match text {
        Some(text) => Some(text@),
        None => None,
    }
}

impl View for InterfaceAddress {
    type V = InterfaceAddressView;

    open spec fn view(&self) -> InterfaceAddressView {
        InterfaceAddressView {
            family: self.family,
            address: text_view(self.address),
            mask: text_view(self.mask),
        }
    }
}

impl View for Interface {
    type V = InterfaceView;

    open spec fn view(&self) -> InterfaceView {
        InterfaceView {
            name: self.name@,
            mac: self.mac@,
            addresses: self.addresses@.map_values(|address: InterfaceAddress| address@),
        }
    }
}

/// What each of `interfaces` holds.
pub open spec fn views_of(interfaces: Seq<Interface>) -> Seq<InterfaceView> {
    interfaces.map_values(|interface: Interface| interface@)
}

/// For each address, whether it is of the family `family`.
pub open spec fn family_tests(addresses: Seq<InterfaceAddressView>, family: AddressFamily) -> Seq<
    Option<bool>,
> {
    Seq::new(addresses.len(), |i: int| Some(addresses[i].family == family))
}

/// The place of the address that stands for `family`: the first address of
/// that family, or the first address of all where there is none of it.
pub open spec fn spec_pick(addresses: Seq<InterfaceAddressView>, family: AddressFamily) -> int {
    match lookup(family_tests(addresses, family)) {
        Lookup::Found(i) => i as int,
        _ => 0,
    }
}

/// Whether an interface is shown: it has an address, and not only packet
/// socket addresses.
pub open spec fn is_listed(interface: InterfaceView) -> bool {
    exists|i: int|
        0 <= i < interface.addresses.len() && (#[trigger] interface.addresses[i]).family
            != AddressFamily::Packet
}

/// The JSON object of an interface, written from its parts.
pub open spec fn interface_object(
    name: Seq<char>,
    mac: Seq<char>,
    address4: Seq<char>,
    mask4: Seq<char>,
    address6: Seq<char>,
) -> Seq<char> {
    "{\"name\": \""@ + name + "\", \"mac-addr\": \""@ + mac
        + "\", \"ipv4-addr\": {\"address\": \""@ + address4 + "\", \"netmask\": \""@ + mask4
        + "\"}, \"ipv6-addr\": {\"address\": \""@ + address6 + "\", \"netmask\": \""@ + mask4
        + "\"}}"@
}

/// The JSON object of an interface.  The IPv6 entry carries the mask of the
/// address chosen for IPv4.  There is no object for an interface without
/// addresses, nor where a chosen address lacks what is written of it.
pub open spec fn spec_interface_json(interface: InterfaceView) -> Option<Seq<char>> {
    if interface.addresses.len() == 0 {
        None
    } else {
        let v4 = interface.addresses[spec_pick(interface.addresses, AddressFamily::IPv4)];
        let v6 = interface.addresses[spec_pick(interface.addresses, AddressFamily::IPv6)];
        match (v4.address, v4.mask, v6.address) {
            (Some(address4), Some(mask4), Some(address6)) => Some(
                interface_object(interface.name, interface.mac, address4, mask4, address6),
            ),
            _ => None,
        }
    }
}

/// The texts in one line, a comma and a space between each two.
pub open spec fn joined(texts: Seq<Seq<char>>) -> Seq<char>
    decreases texts.len(),
{
    if texts.len() == 0 {
        Seq::<char>::empty()
    } else if texts.len() == 1 {
        texts[0]
    } else {
        joined(texts.drop_last()) + ", "@ + texts.last()
    }
}

/// The JSON objects of the interfaces that are shown, in their order;
/// nothing where one of them has no object.
pub open spec fn listed_objects(interfaces: Seq<InterfaceView>) -> Option<Seq<Seq<char>>>
    decreases interfaces.len(),
{
    if interfaces.len() == 0 {
        Some(Seq::<Seq<char>>::empty())
    } else {
        match listed_objects(interfaces.drop_last()) {
            None => None,
            Some(objects) => if is_listed(interfaces.last()) {
                match spec_interface_json(interfaces.last()) {
                    Some(object) => Some(objects.push(object)),
                    None => None,
                }
            } else {
                Some(objects)
            },
        }
    }
}

/// The JSON list of the interfaces that are shown.
pub open spec fn spec_interfaces_json(interfaces: Seq<InterfaceView>) -> Option<Seq<char>> {
    match listed_objects(interfaces) {
        Some(objects) => Some("["@ + joined(objects) + "]"@),
        None => None,
    }
}

/// Whether an interface is shown.
pub fn listed(interface: &Interface) -> (r: bool)
    ensures
        r == is_listed(interface@),
{
    let mut i: usize = 0;
    while i < interface.addresses.len()
        invariant
            i <= interface.addresses@.len(),
            forall|j: int|
                0 <= j < i ==> (#[trigger] interface@.addresses[j]).family
                    == AddressFamily::Packet,
        decreases interface.addresses@.len() - i,
    {
        assert(interface@.addresses[i as int] == interface.addresses@[i as int]@);
        match interface.addresses[i].family {
            AddressFamily::Packet => {},
            _ => {
                return true;
            },
        }
        i += 1;
    }
    false
}

/// Chooses the address that stands for `family`.
pub fn pick(addresses: &Vec<InterfaceAddress>, family: AddressFamily) -> (i: usize)
    requires
        addresses@.len() > 0,
    ensures
        i < addresses@.len(),
        i == spec_pick(addresses@.map_values(|address: InterfaceAddress| address@), family),
{
    let ghost views = addresses@.map_values(|address: InterfaceAddress| address@);
    let ghost tests = family_tests(views, family);
    let mut i: usize = 0;
    while i < addresses.len()
        invariant
            i <= addresses@.len(),
            views == addresses@.map_values(|address: InterfaceAddress| address@),
            tests == family_tests(views, family),
            forall|j: int| 0 <= j < i ==> tests[j] == Some(false),
        decreases addresses@.len() - i,
    {
        assert(views[i as int] == addresses@[i as int]@);
        if addresses[i].family == family {
            proof {
                lemma_lookup_at(tests, i as int);
            }
            return i;
        }
        i += 1;
    }
    proof {
        lemma_lookup_absent(tests);
    }
    0
}

/// Writes the JSON object of an interface.
pub fn interface_json(interface: &Interface) -> (r: Option<String>)
    ensures
        r is Some <==> spec_interface_json(interface@) is Some,
        r matches Some(text) ==> spec_interface_json(interface@) == Some(text@),
{
    if interface.addresses.len() == 0 {
        return None;
    }
    let i4 = pick(&interface.addresses, AddressFamily::IPv4);
    let i6 = pick(&interface.addresses, AddressFamily::IPv6);
    assert(interface@.addresses[i4 as int] == interface.addresses@[i4 as int]@);
    assert(interface@.addresses[i6 as int] == interface.addresses@[i6 as int]@);
    let v4 = &interface.addresses[i4];
    let v6 = &interface.addresses[i6];
    match (&v4.address, &v4.mask, &v6.address) {
        (Some(address4), Some(mask4), Some(address6)) => {
            let mut text = String::from_str("{\"name\": \"");
            text.append(interface.name.as_str());
            text.append("\", \"mac-addr\": \"");
            text.append(interface.mac.as_str());
            text.append("\", \"ipv4-addr\": {\"address\": \"");
            text.append(address4.as_str());
            text.append("\", \"netmask\": \"");
            text.append(mask4.as_str());
            text.append("\"}, \"ipv6-addr\": {\"address\": \"");
            text.append(address6.as_str());
            text.append("\", \"netmask\": \"");
            text.append(mask4.as_str());
            text.append("\"}}");
            Some(text)
        },
        _ => None,
    }
}

/// Writes the JSON list of the interfaces that are shown.
pub fn interfaces_json(interfaces: &Vec<Interface>) -> (r: Option<String>)
    ensures
        r is Some <==> spec_interfaces_json(views_of(interfaces@)) is Some,
        r matches Some(text) ==> spec_interfaces_json(views_of(interfaces@)) == Some(text@),
{
    let ghost all = views_of(interfaces@);
    let ghost mut objects = Seq::<Seq<char>>::empty();
    let mut text = String::from_str("[");
    let mut started: bool = false;
    let mut i: usize = 0;
    assert(all.subrange(0, 0) =~= Seq::<InterfaceView>::empty());
    assert(text@ =~= "["@ + joined(objects));
    while i < interfaces.len()
        invariant
            i <= interfaces@.len(),
            all == views_of(interfaces@),
            listed_objects(all.subrange(0, i as int)) == Some(objects),
            text@ == "["@ + joined(objects),
            started == (objects.len() > 0),
        decreases interfaces@.len() - i,
    {
        let ghost before = all.subrange(0, i as int);
        let ghost now = all.subrange(0, i + 1);
        assert(now.drop_last() =~= before);
        assert(now.last() == interfaces@[i as int]@);
        if listed(&interfaces[i]) {
            match interface_json(&interfaces[i]) {
                None => {
                    proof {
                        lemma_listed_objects_stay_none(now, all);
                    }
                    return None;
                },
                Some(object) => {
                    if started {
                        text.append(", ");
                    }
                    text.append(object.as_str());
                    proof {
                        let next = objects.push(object@);
                        assert(next.drop_last() =~= objects);
                        assert(text@ =~= "["@ + joined(next));
                        objects = next;
                    }
                    started = true;
                },
            }
        }
        i += 1;
    }
    assert(all.subrange(0, i as int) =~= all);
    text.append("]");
    Some(text)
}

/// Once an interface that is shown has no object, no longer list has a
/// JSON text either.
proof fn lemma_listed_objects_stay_none(part: Seq<InterfaceView>, all: Seq<InterfaceView>)
    requires
        listed_objects(part) is None,
        part.len() <= all.len(),
        part == all.subrange(0, part.len() as int),
    ensures
        listed_objects(all) is None,
    decreases all.len() - part.len(),
{
    if part.len() < all.len() {
        let longer = all.subrange(0, part.len() as int + 1);
        assert(longer.drop_last() =~= part);
        lemma_listed_objects_stay_none(longer, all);
    } else {
        assert(part =~= all);
    }
}

} // verus!
