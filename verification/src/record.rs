//! Device records: what the registry tells of one device.
//!
//! A record holds the name of a device, what a probe needs of it, and its
//! user nodes.  A record is valid when its name is not the reserved one and
//! no two of its user nodes share both name and parent.

use crate::json::{items_of, json_of, jsons_of, member, Json};
use crate::lookup::lemma_lookup_found;
use crate::registry::{
    client_list, find_device, lemma_reserved_name_is_never_found, name_of, name_tests,
    names_sound, reserved_name, spec_find_device, text_member_of,
};
use crate::target::{read_target_value, spec_read_target, ProbeTarget, ProbeTargetView};
use crate::text::str_eq;
use crate::user_nodes::{pair_of, user_nodes_of, NodeKey};
use serde_json::Value;
use vstd::prelude::*;

verus! {

/// A user node of a device: a name under a parent.
#[derive(Clone, Debug, PartialEq, Eq)]
pub struct UserNode {
    /// The name of the node.
    pub name: String,
    /// The path in the device's model under which the node hangs.
    pub parent: String,
}

impl View for UserNode {
    type V = NodeKey;

    open spec fn view(&self) -> NodeKey {
        NodeKey { name: self.name@, parent: self.parent@ }
    }
}

/// A device of the registry.
#[derive(Clone, Debug, PartialEq, Eq)]
pub struct DeviceRecord {
    /// The name of the device.
    pub name: String,
    /// The type and the address of the device.
    pub target: ProbeTarget,
    /// The user nodes of the device, in the order of the registry.
    pub user_nodes: Vec<UserNode>,
}

/// What a device record holds.
pub struct DeviceRecordView {
    /// The name of the device.
    pub name: Seq<char>,
    /// The type and the address of the device.
    pub target: ProbeTargetView,
    /// The user nodes of the device.
    pub user_nodes: Seq<NodeKey>,
}

impl View for DeviceRecord {
    type V = DeviceRecordView;

    open spec fn view(&self) -> DeviceRecordView {
        DeviceRecordView {
            name: self.name@,
            target: self.target@,
            user_nodes: self.user_nodes@.map_values(|node: UserNode| node@),
        }
    }
}

impl DeviceRecordView {
    /// Whether the record is valid: its name is not reserved, and no two of
    /// its user nodes share both name and parent.
    pub open spec fn valid(self) -> bool {
        &&& self.name != reserved_name()
        &&& forall|i: int, j: int|
            0 <= i < j < self.user_nodes.len() ==> self.user_nodes[i] != self.user_nodes[j]
    }
}

/// The user nodes that a list spells, if every item has a name and a
/// parent.
pub open spec fn spec_read_nodes(nodes: Seq<Json>) -> Option<Seq<NodeKey>> {
    if forall|i: int| 0 <= i < nodes.len() ==> pair_of(#[trigger] nodes[i]) is Some {
        Some(Seq::new(nodes.len(), |i: int| pair_of(nodes[i])->0))
    } else {
        None
    }
}

/// The record that a device of the registry spells, if it spells one: it
/// needs a name, a type and an address, and its user nodes, if it has any,
/// must each have a name and a parent.
pub open spec fn spec_read_record(device: Json) -> Option<DeviceRecordView> {
    match (name_of(device), spec_read_target(device), user_nodes_of(device)) {
        (Some(name), Ok(target), Some(nodes)) => match spec_read_nodes(nodes) {
            Some(user_nodes) => Some(DeviceRecordView { name, target, user_nodes }),
            None => None,
        },
        _ => None,
    }
}

/// The record of the first device named `name`, if the registry has one
/// that can be read.
pub open spec fn spec_get_device(document: Json, name: Seq<char>) -> Option<DeviceRecordView> {
    match spec_find_device(document, name) {
        Some(device) => spec_read_record(device),
        None => None,
    }
}

/// Reads a list of user nodes.
pub fn read_nodes(nodes: &Vec<Value>) -> (r: Option<Vec<UserNode>>)
    ensures
        r is Some <==> spec_read_nodes(jsons_of(nodes@)) is Some,
        r matches Some(read) ==> spec_read_nodes(jsons_of(nodes@)) == Some(
            read@.map_values(|node: UserNode| node@),
        ),
{
    let ghost all = jsons_of(nodes@);
    let mut read: Vec<UserNode> = Vec::new();
    let mut i: usize = 0;
    while i < nodes.len()
        invariant
            i <= nodes@.len(),
            all == jsons_of(nodes@),
            read@.len() == i,
            forall|j: int| 0 <= j < i ==> pair_of(#[trigger] all[j]) is Some,
            forall|j: int| 0 <= j < i ==> (#[trigger] read@[j])@ == pair_of(all[j])->0,
        decreases nodes@.len() - i,
    {
        assert(all[i as int] == json_of(nodes@[i as int]));
        let name = match text_member_of(&nodes[i], "Name") {
            None => {
                assert(pair_of(all[i as int]) is None);
                return None;
            },
            Some(name) => name,
        };
        let parent = match text_member_of(&nodes[i], "Parent") {
            None => {
                assert(pair_of(all[i as int]) is None);
                return None;
            },
            Some(parent) => parent,
        };
        read.push(UserNode { name: String::from_str(name), parent: String::from_str(parent) });
        i += 1;
    }
    assert(read@.map_values(|node: UserNode| node@) =~= Seq::new(
        all.len(),
        |i: int| pair_of(all[i])->0,
    ));
    Some(read)
}

/// Reads the record of a device.
pub fn read_record(device: &Value) -> (r: Option<DeviceRecord>)
    ensures
        r is Some <==> spec_read_record(json_of(*device)) is Some,
        r matches Some(record) ==> spec_read_record(json_of(*device)) == Some(record@),
{
    let name = match text_member_of(device, "Name") {
        None => {
            return None;
        },
        Some(name) => name,
    };
    let target = match read_target_value(device) {
        Err(_) => {
            return None;
        },
        Ok(target) => target,
    };
    let user_nodes = match member(device, "UserNodes") {
        None => {
            assert(Seq::<UserNode>::empty().map_values(|node: UserNode| node@) =~= Seq::new(
                0,
                |i: int| pair_of(Seq::<Json>::empty()[i])->0,
            ));
            Vec::new()
        },
        Some(list) => match items_of(list) {
            None => {
                return None;
            },
            Some(nodes) => match read_nodes(nodes) {
                None => {
                    return None;
                },
                Some(read) => read,
            },
        },
    };
    Some(DeviceRecord { name: String::from_str(name), target, user_nodes })
}

/// Looks a device up by its name and reads its record.
pub fn get_device(document: &Value, name: &str) -> (r: Option<DeviceRecord>)
    ensures
        r is Some <==> spec_get_device(json_of(*document), name@) is Some,
        r matches Some(record) ==> spec_get_device(json_of(*document), name@) == Some(record@),
{
    match find_device(document, name) {
        Some(device) => read_record(device),
        None => None,
    }
}

impl DeviceRecord {
    /// Whether the record is valid.
    pub fn is_valid(&self) -> (r: bool)
        ensures
            r == self@.valid(),
    {
        if str_eq(self.name.as_str(), "running") {
            return false;
        }
        let ghost nodes = self@.user_nodes;
        let mut j: usize = 0;
        while j < self.user_nodes.len()
            invariant
                j <= self.user_nodes@.len(),
                nodes == self@.user_nodes,
                forall|a: int, b: int| 0 <= a < b < j ==> nodes[a] != nodes[b],
            decreases self.user_nodes@.len() - j,
        {
            let mut i: usize = 0;
            while i < j
                invariant
                    i <= j < self.user_nodes@.len(),
                    nodes == self@.user_nodes,
                    forall|a: int| 0 <= a < i ==> nodes[a] != nodes[j as int],
                decreases j - i,
            {
                assert(nodes[i as int] == self.user_nodes@[i as int]@);
                assert(nodes[j as int] == self.user_nodes@[j as int]@);
                if str_eq(self.user_nodes[i].name.as_str(), self.user_nodes[j].name.as_str())
                    && str_eq(
                    self.user_nodes[i].parent.as_str(),
                    self.user_nodes[j].parent.as_str(),
                ) {
                    return false;
                }
                i += 1;
            }
            j += 1;
        }
        true
    }
}

/// A record that the registry gives under a name has that name.
pub proof fn lemma_record_has_the_name_asked_for(document: Json, name: Seq<char>)
    requires
        spec_get_device(document, name) is Some,
        client_list(document) matches Some(clients) && clients.len() <= usize::MAX,
    ensures
        spec_get_device(document, name)->0.name == name,
{
    let clients = client_list(document)->0;
    lemma_lookup_found(name_tests(clients, name));
}

/// A registry with sound names never gives a record under the reserved
/// name: no device so named is handed out, to a probe or to anyone.
pub proof fn lemma_reserved_name_has_no_record(document: Json)
    requires
        names_sound(document),
    ensures
        spec_get_device(document, reserved_name()) is None,
{
    lemma_reserved_name_is_never_found(document);
}

} // verus!
