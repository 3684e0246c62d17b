//! The user nodes of a device.
//!
//! A device may hold user nodes under its member `UserNodes`.  A user node
//! is told by its name together with its parent; a device holds no two with
//! the same pair.

use crate::json::{
    array_of, copy_of, items_of, json_of, json_parse, jsons_of, lemma_jsons_of_push, member, parse,
    set_member, Json,
};
use crate::lookup::{
    lemma_lookup_absent, lemma_lookup_at, lemma_lookup_found, lemma_lookup_meaning, lookup, Lookup,
};
use crate::registry::{
    client_list, copy_items, find_client, gives, gives_text, name_of, name_tests, names_sound,
    reserved_name, text_member_of, with_clients, write_document, written, RegistryError,
};
use crate::text::str_eq;
use serde_json::Value;
use vstd::prelude::*;

verus! {

/// Whether a user node has the name `name` and the parent `parent`; nothing
/// where that cannot be told.  The parent is looked at only where the name
/// fits, so a node of another name needs none.
pub open spec fn node_test(node: Json, name: Seq<char>, parent: Seq<char>) -> Option<bool> {
    match name_of(node) {
        None => None,
        Some(found) => if found != name {
            Some(false)
        } else {
            match node.text_member("Parent"@) {
                None => None,
                Some(above) => Some(above == parent),
            }
        },
    }
}

/// For each user node, whether it has the name `name` and the parent
/// `parent`.
pub open spec fn node_tests(nodes: Seq<Json>, name: Seq<char>, parent: Seq<char>) -> Seq<
    Option<bool>,
> {
    Seq::new(nodes.len(), |i: int| node_test(nodes[i], name, parent))
}

/// The device with the list of its user nodes replaced.
pub open spec fn with_user_nodes(device: Json, nodes: Seq<Json>) -> Json {
    device.with_member("UserNodes"@, Json::Array(nodes))
}

/// The user nodes of a device after `node` was added, or why it cannot be.
/// A device without user nodes gets a list of one.
pub open spec fn spec_nodes_with(device: Json, node: Json, name: Seq<char>, parent: Seq<char>) -> Result<
    Seq<Json>,
    RegistryError,
> {
    match device.member("UserNodes"@) {
        None => Ok(seq![node]),
        Some(list) => match list.items() {
            None => Err(RegistryError::MalformedDocument),
            Some(nodes) => match lookup(node_tests(nodes, name, parent)) {
                Lookup::Found(_) => Err(RegistryError::DuplicateUserNode),
                Lookup::Unreadable => Err(RegistryError::MalformedDocument),
                Lookup::Absent => Ok(nodes.push(node)),
            },
        },
    }
}

/// The user nodes of a device after the first node of the given name and
/// parent was removed, or why it cannot be.
pub open spec fn spec_nodes_without(device: Json, name: Seq<char>, parent: Seq<char>) -> Result<
    Seq<Json>,
    RegistryError,
> {
    match device.member("UserNodes"@) {
        None => Err(RegistryError::UnknownUserNode),
        Some(list) => match list.items() {
            None => Err(RegistryError::MalformedDocument),
            Some(nodes) => match lookup(node_tests(nodes, name, parent)) {
                Lookup::Found(k) => Ok(nodes.remove(k as int)),
                Lookup::Unreadable => Err(RegistryError::MalformedDocument),
                Lookup::Absent => Err(RegistryError::UnknownUserNode),
            },
        },
    }
}

/// Where the first device named `device_name` stands in the registry, or
/// why it cannot be told.
pub open spec fn spec_locate_device(document: Json, device_name: Seq<char>) -> Result<
    int,
    RegistryError,
> {
    match client_list(document) {
        None => Err(RegistryError::MalformedDocument),
        Some(clients) => match lookup(name_tests(clients, device_name)) {
            Lookup::Found(i) => Ok(i as int),
            Lookup::Unreadable => Err(RegistryError::MalformedDocument),
            Lookup::Absent => Err(RegistryError::UnknownDevice),
        },
    }
}

/// The registry with the user nodes of its device at `i` replaced.
pub open spec fn with_nodes_at(document: Json, i: int, nodes: Seq<Json>) -> Json {
    let clients = client_list(document)->0;
    with_clients(document, clients.update(i, with_user_nodes(clients[i], nodes)))
}

/// The registry after `node` was added to the first device named
/// `device_name`, or why it cannot be.
///
/// The node needs a name and a parent, the registry a device of that name.
/// A node whose name and parent the device holds already is a duplicate.
/// Otherwise the node goes to the end of the device's user nodes, and
/// nothing else changes.
pub open spec fn spec_add_user_node(document: Json, device_name: Seq<char>, node: Json) -> Result<
    Json,
    RegistryError,
> {
    match (name_of(node), node.text_member("Parent"@)) {
        (Some(name), Some(parent)) => match spec_locate_device(document, device_name) {
            Err(error) => Err(error),
            Ok(i) => match spec_nodes_with(client_list(document)->0[i], node, name, parent) {
                Err(error) => Err(error),
                Ok(nodes) => Ok(with_nodes_at(document, i, nodes)),
            },
        },
        _ => Err(RegistryError::MalformedUserNode),
    }
}

/// The registry after the first user node of the given name and parent was
/// removed from the first device named `device_name`, or why it cannot be.
pub open spec fn spec_remove_user_node(
    document: Json,
    device_name: Seq<char>,
    name: Seq<char>,
    parent: Seq<char>,
) -> Result<Json, RegistryError> {
    match spec_locate_device(document, device_name) {
        Err(error) => Err(error),
        Ok(i) => match spec_nodes_without(client_list(document)->0[i], name, parent) {
            Err(error) => Err(error),
            Ok(nodes) => Ok(with_nodes_at(document, i, nodes)),
        },
    }
}

/// The text of the registry after a user node was added, or why there is
/// none.
pub open spec fn spec_add_user_node_text(
    document: Seq<char>,
    device_name: Seq<char>,
    node: Seq<char>,
) -> Result<Seq<char>, RegistryError> {
    match json_parse(document) {
        None => Err(RegistryError::MalformedDocument),
        Some(registry) => match json_parse(node) {
            None => Err(RegistryError::MalformedUserNode),
            Some(entry) => written(spec_add_user_node(registry, device_name, entry)),
        },
    }
}

/// The text of the registry after a user node was removed, or why there is
/// none.
pub open spec fn spec_remove_user_node_text(
    document: Seq<char>,
    device_name: Seq<char>,
    name: Seq<char>,
    parent: Seq<char>,
) -> Result<Seq<char>, RegistryError> {
    match json_parse(document) {
        None => Err(RegistryError::MalformedDocument),
        Some(registry) => written(spec_remove_user_node(registry, device_name, name, parent)),
    }
}

/// Whether a user node has the given name and parent.
pub fn test_node(node: &Value, name: &str, parent: &str) -> (r: Option<bool>)
    ensures
        r == node_test(json_of(*node), name@, parent@),
{
    match text_member_of(node, "Name") {
        None => None,
        Some(found) => if !str_eq(found, name) {
            Some(false)
        } else {
            match text_member_of(node, "Parent") {
                None => None,
                Some(above) => Some(str_eq(above, parent)),
            }
        },
    }
}

/// Searches the user nodes for the first of the given name and parent.
pub fn find_node(nodes: &Vec<Value>, name: &str, parent: &str) -> (r: Lookup)
    ensures
        r == lookup(node_tests(jsons_of(nodes@), name@, parent@)),
{
    let ghost tests = node_tests(jsons_of(nodes@), name@, parent@);
    let mut i: usize = 0;
    while i < nodes.len()
        invariant
            i <= nodes@.len(),
            tests == node_tests(jsons_of(nodes@), name@, parent@),
            forall|j: int| 0 <= j < i ==> tests[j] == Some(false),
        decreases nodes@.len() - i,
    {
        assert(jsons_of(nodes@)[i as int] == json_of(nodes@[i as int]));
        match test_node(&nodes[i], name, parent) {
            None => {
                proof {
                    lemma_lookup_at(tests, i as int);
                }
                return Lookup::Unreadable;
            },
            Some(true) => {
                proof {
                    lemma_lookup_at(tests, i as int);
                }
                return Lookup::Found(i);
            },
            Some(false) => {},
        }
        i += 1;
    }
    proof {
        lemma_lookup_absent(tests);
    }
    Lookup::Absent
}

/// Finds the first device named `device_name` and gives the list of devices
/// with its place in it.
pub fn locate_device<'a>(document: &'a Value, device_name: &str) -> (r: Result<
    (&'a Vec<Value>, usize),
    RegistryError,
>)
    ensures
        match r {
            Ok((clients, i)) => {
                &&& client_list(json_of(*document)) == Some(jsons_of(clients@))
                &&& spec_locate_device(json_of(*document), device_name@) == Ok::<
                    int,
                    RegistryError,
                >(i as int)
                &&& i < clients@.len()
            },
            Err(error) => spec_locate_device(json_of(*document), device_name@) == Err::<
                int,
                RegistryError,
            >(error),
        },
{
    let list = match member(document, "Clients") {
        None => {
            return Err(RegistryError::MalformedDocument);
        },
        Some(list) => list,
    };
    let clients = match items_of(list) {
        None => {
            return Err(RegistryError::MalformedDocument);
        },
        Some(clients) => clients,
    };
    match find_client(clients, device_name) {
        Lookup::Found(i) => {
            proof {
                assert(name_tests(jsons_of(clients@), device_name@).len() == clients.len());
                lemma_lookup_found(name_tests(jsons_of(clients@), device_name@));
            }
            Ok((clients, i))
        },
        Lookup::Unreadable => Err(RegistryError::MalformedDocument),
        Lookup::Absent => Err(RegistryError::UnknownDevice),
    }
}

/// Puts a new list of user nodes into the device at `i` and the device into
/// the registry.
fn put_nodes(document: Value, clients: Vec<Value>, i: usize, nodes: Vec<Value>) -> (r: Value)
    requires
        client_list(json_of(document)) is Some,
        i < clients@.len(),
    ensures
        json_of(r) == with_clients(
            json_of(document),
            jsons_of(clients@).update(
                i as int,
                with_user_nodes(jsons_of(clients@)[i as int], jsons_of(nodes@)),
            ),
        ),
{
    let mut document = document;
    let mut clients = clients;
    let mut device = copy_of(&clients[i]);
    assert(jsons_of(clients@)[i as int] == json_of(clients@[i as int]));
    set_member(&mut device, "UserNodes", array_of(nodes));
    let ghost before = clients@;
    clients.set(i, device);
    assert(jsons_of(clients@) =~= jsons_of(before).update(i as int, json_of(device)));
    set_member(&mut document, "Clients", array_of(clients));
    document
}

/// Adds a user node to the first device named `device_name`.  On success
/// the result is the registry with the node at the end of that device's
/// user nodes.
pub fn add_user_node_value(document: Value, device_name: &str, node: Value) -> (r: Result<
    Value,
    RegistryError,
>)
    ensures
        gives(r, spec_add_user_node(json_of(document), device_name@, json_of(node))),
{
    let (clients, i, mut nodes): (Vec<Value>, usize, Vec<Value>) = {
        let name = match text_member_of(&node, "Name") {
            None => {
                return Err(RegistryError::MalformedUserNode);
            },
            Some(name) => name,
        };
        let parent = match text_member_of(&node, "Parent") {
            None => {
                return Err(RegistryError::MalformedUserNode);
            },
            Some(parent) => parent,
        };
        let (clients, i) = match locate_device(&document, device_name) {
            Err(error) => {
                return Err(error);
            },
            Ok(found) => found,
        };
        assert(jsons_of(clients@)[i as int] == json_of(clients@[i as int]));
        let nodes: Vec<Value> = match member(&clients[i], "UserNodes") {
            None => Vec::new(),
            Some(list) => match items_of(list) {
                None => {
                    return Err(RegistryError::MalformedDocument);
                },
                Some(nodes) => match find_node(nodes, name, parent) {
                    Lookup::Found(_) => {
                        return Err(RegistryError::DuplicateUserNode);
                    },
                    Lookup::Unreadable => {
                        return Err(RegistryError::MalformedDocument);
                    },
                    Lookup::Absent => copy_items(nodes),
                },
            },
        };
        (copy_items(clients), i, nodes)
    };
    let ghost before = nodes@;
    nodes.push(node);
    proof {
        lemma_jsons_of_push(before, node);
        assert(jsons_of(Seq::<Value>::empty()).push(json_of(node)) =~= seq![json_of(node)]);
    }
    Ok(put_nodes(document, clients, i, nodes))
}

/// Removes the first user node of the given name and parent from the first
/// device named `device_name`.
pub fn remove_user_node_value(document: Value, device_name: &str, name: &str, parent: &str) -> (r:
    Result<Value, RegistryError>)
    ensures
        gives(r, spec_remove_user_node(json_of(document), device_name@, name@, parent@)),
{
    let (clients, i, mut nodes, k): (Vec<Value>, usize, Vec<Value>, usize) = {
        let (clients, i) = match locate_device(&document, device_name) {
            Err(error) => {
                return Err(error);
            },
            Ok(found) => found,
        };
        assert(jsons_of(clients@)[i as int] == json_of(clients@[i as int]));
        let list = match member(&clients[i], "UserNodes") {
            None => {
                return Err(RegistryError::UnknownUserNode);
            },
            Some(list) => list,
        };
        let nodes = match items_of(list) {
            None => {
                return Err(RegistryError::MalformedDocument);
            },
            Some(nodes) => nodes,
        };
        match find_node(nodes, name, parent) {
            Lookup::Found(k) => {
                proof {
                    assert(node_tests(jsons_of(nodes@), name@, parent@).len() == nodes.len());
                    lemma_lookup_found(node_tests(jsons_of(nodes@), name@, parent@));
                }
                (copy_items(clients), i, copy_items(nodes), k)
            },
            Lookup::Unreadable => {
                return Err(RegistryError::MalformedDocument);
            },
            Lookup::Absent => {
                return Err(RegistryError::UnknownUserNode);
            },
        }
    };
    let ghost before = nodes@;
    assert(jsons_of(before).len() == before.len());
    nodes.remove(k);
    assert(jsons_of(nodes@) =~= jsons_of(before).remove(k as int));
    Ok(put_nodes(document, clients, i, nodes))
}

/// Adds the user node that `node` spells to the first device named
/// `device_name` of the registry that `document` spells, and gives the text
/// of the new registry.
pub fn add_user_node(document: &str, device_name: &str, node: &str) -> (r: Result<
    String,
    RegistryError,
>)
    ensures
        gives_text(r, spec_add_user_node_text(document@, device_name@, node@)),
{
    let registry = match parse(document) {
        None => {
            return Err(RegistryError::MalformedDocument);
        },
        Some(registry) => registry,
    };
    let entry = match parse(node) {
        None => {
            return Err(RegistryError::MalformedUserNode);
        },
        Some(entry) => entry,
    };
    write_document(add_user_node_value(registry, device_name, entry))
}

/// Removes the first user node of the given name and parent from the first
/// device named `device_name` of the registry that `document` spells, and
/// gives the text of the new registry.
pub fn remove_user_node(document: &str, device_name: &str, name: &str, parent: &str) -> (r: Result<
    String,
    RegistryError,
>)
    ensures
        gives_text(r, spec_remove_user_node_text(document@, device_name@, name@, parent@)),
{
    let registry = match parse(document) {
        None => {
            return Err(RegistryError::MalformedDocument);
        },
        Some(registry) => registry,
    };
    write_document(remove_user_node_value(registry, device_name, name, parent))
}

/// What tells a user node from the others of its device.
pub struct NodeKey {
    /// The name of the node.
    pub name: Seq<char>,
    /// The path of the node under which it hangs.
    pub parent: Seq<char>,
}

/// The name and the parent of a user node, where it has both.
pub open spec fn pair_of(node: Json) -> Option<NodeKey> {
    match (name_of(node), node.text_member("Parent"@)) {
        (Some(name), Some(parent)) => Some(NodeKey { name, parent }),
        _ => None,
    }
}

/// Whether a list of user nodes is sound: every node has a name and a
/// parent, and no two nodes share both.
pub open spec fn nodes_sound(nodes: Seq<Json>) -> bool {
    &&& forall|i: int| 0 <= i < nodes.len() ==> pair_of(#[trigger] nodes[i]) is Some
    &&& forall|i: int, j: int|
        0 <= i < j < nodes.len() ==> pair_of(#[trigger] nodes[i]) != pair_of(#[trigger] nodes[j])
}

/// The user nodes of a device, where it holds a list of them; a device
/// without the member holds none.
pub open spec fn user_nodes_of(device: Json) -> Option<Seq<Json>> {
    match device.member("UserNodes"@) {
        None => Some(Seq::<Json>::empty()),
        Some(list) => list.items(),
    }
}

/// Adding a user node keeps the user nodes of a device sound: the pair of
/// a name and a parent stays unique.
pub proof fn lemma_add_keeps_nodes_sound(device: Json, node: Json)
    requires
        user_nodes_of(device) matches Some(nodes) && nodes_sound(nodes),
        pair_of(node) is Some,
        spec_nodes_with(device, node, pair_of(node)->0.name, pair_of(node)->0.parent) is Ok,
    ensures
        nodes_sound(spec_nodes_with(device, node, pair_of(node)->0.name, pair_of(node)->0.parent)->Ok_0),
{
    let nodes = user_nodes_of(device)->0;
    let name = pair_of(node)->0.name;
    let parent = pair_of(node)->0.parent;
    let next = nodes.push(node);
    assert(spec_nodes_with(device, node, name, parent)->Ok_0 =~= next);
    let tests = node_tests(nodes, name, parent);
    if device.member("UserNodes"@) is Some {
        lemma_lookup_meaning(tests);
    }
    assert forall|i: int| 0 <= i < next.len() implies pair_of(#[trigger] next[i]) is Some by {
        if i < nodes.len() {
            assert(next[i] == nodes[i]);
        }
    }
    assert forall|i: int, j: int| 0 <= i < j < next.len() implies pair_of(#[trigger] next[i])
        != pair_of(#[trigger] next[j]) by {
        assert(next[i] == nodes[i]);
        if j < nodes.len() {
            assert(next[j] == nodes[j]);
        } else {
            assert(tests[i] == Some(false));
        }
    }
}

/// A user node whose name and parent a device holds already is refused.
pub proof fn lemma_taken_pair_is_refused(device: Json, node: Json, i: int)
    requires
        user_nodes_of(device) matches Some(nodes) && nodes_sound(nodes) && 0 <= i < nodes.len()
            && pair_of(nodes[i]) == pair_of(node),
    ensures
        spec_nodes_with(device, node, pair_of(node)->0.name, pair_of(node)->0.parent) is Err,
{
    let nodes = user_nodes_of(device)->0;
    let tests = node_tests(nodes, pair_of(node)->0.name, pair_of(node)->0.parent);
    assert(pair_of(nodes[i]) is Some);
    assert(tests[i] == Some(true));
    lemma_lookup_meaning(tests);
}

/// Changing the user nodes of a device keeps the names of a registry
/// sound: every device keeps its name.
pub proof fn lemma_user_nodes_keep_names_sound(document: Json, i: int, nodes: Seq<Json>)
    requires
        names_sound(document),
        0 <= i < client_list(document)->0.len(),
    ensures
        names_sound(with_nodes_at(document, i, nodes)),
{
    reveal_strlit("UserNodes");
    reveal_strlit("Name");
    reveal_strlit("Clients");
    let clients = client_list(document)->0;
    let next = clients.update(i, with_user_nodes(clients[i], nodes));
    assert(client_list(with_nodes_at(document, i, nodes)) == Some(next));
    assert("UserNodes"@.len() != "Name"@.len());
    assert(name_of(clients[i]) is Some);
    assert(name_of(next[i]) == name_of(clients[i]));
    assert forall|k: int| 0 <= k < next.len() implies name_of(#[trigger] next[k]) == name_of(
        clients[k],
    ) by {}
    assert forall|k: int| 0 <= k < next.len() implies name_of(#[trigger] next[k]) is Some
        && name_of(next[k]) != Some(reserved_name()) by {
        assert(name_of(clients[k]) is Some);
    }
    assert forall|a: int, b: int| 0 <= a < b < next.len() implies name_of(#[trigger] next[a])
        != name_of(#[trigger] next[b]) by {
        assert(name_of(clients[a]) != name_of(clients[b]));
    }
}

} // verus!
