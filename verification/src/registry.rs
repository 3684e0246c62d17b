//! The device registry.
//!
//! The registry is a JSON document: an object whose member `Clients` lists
//! the devices.  A device is an object with a text member `Name`; it may
//! hold its user nodes under `UserNodes`, each an object with the text
//! members `Name` and `Parent`.  No two devices share a name, and the name
//! `running` is reserved.
//!
//! Every function here makes a new document from an old one and leaves it
//! to the caller to read and write the file.  Each comes twice: on parsed
//! values, where the contract says what the new document holds, and on
//! texts, where it adds the parsing and the writing.

use crate::json::{
    array_of, copy_of, empty_object, items_of, json_of, json_parse, json_pretty, jsons_of,
    lemma_jsons_of_push, member, parse, set_member, text_of, to_pretty_text, Json,
};
use crate::lookup::{
    lemma_lookup_absent, lemma_lookup_at, lemma_lookup_found, lemma_lookup_meaning, lookup, Lookup,
};
use crate::text::str_eq;
use serde_json::Value;
use vstd::prelude::*;

verus! {

/// Why a change to the registry was refused.
#[derive(Clone, Copy, Debug, PartialEq, Eq, Structural)]
pub enum RegistryError {
    /// The registry is not a JSON object with a list of named devices.
    MalformedDocument,
    /// The device is not a JSON object with a text member `Name`.
    MalformedDevice,
    /// The user node is not a JSON object with the text members `Name` and
    /// `Parent`.
    MalformedUserNode,
    /// A device of that name is in the registry already.
    DuplicateDevice,
    /// The name is reserved.
    InvalidName,
    /// The device has a user node of that name and parent already.
    DuplicateUserNode,
    /// No device of that name is in the registry.
    UnknownDevice,
    /// The device has no user node of that name and parent.
    UnknownUserNode,
    /// The new document could not be written as text.
    Unwritable,
}

/// The name that no device may have.
pub open spec fn reserved_name() -> Seq<char> {
    "running"@
}

/// The devices that a registry lists.
pub open spec fn client_list(document: Json) -> Option<Seq<Json>> {
    match document.member("Clients"@) {
        Some(list) => list.items(),
        None => None,
    }
}

/// The name of a device.
pub open spec fn name_of(client: Json) -> Option<Seq<char>> {
    client.text_member("Name"@)
}

/// Whether a device has the name `name`; nothing where it has no name.
pub open spec fn name_test(client: Json, name: Seq<char>) -> Option<bool> {
    match name_of(client) {
        Some(found) => Some(found == name),
        None => None,
    }
}

/// For each device, whether it has the name `name`.
pub open spec fn name_tests(clients: Seq<Json>, name: Seq<char>) -> Seq<Option<bool>> {
    Seq::new(clients.len(), |i: int| name_test(clients[i], name))
}

/// The registry with the list of its devices replaced.
pub open spec fn with_clients(document: Json, clients: Seq<Json>) -> Json {
    document.with_member("Clients"@, Json::Array(clients))
}

/// The registry after `device` was added, or why it cannot be.
///
/// The device needs a name and the registry a list of devices.  A device
/// whose name is taken is a duplicate; one whose name is free but reserved
/// is invalid.  Otherwise the device goes to the end of the list, and
/// nothing else changes.
pub open spec fn spec_add_device(document: Json, device: Json) -> Result<Json, RegistryError> {
    match name_of(device) {
        None => Err(RegistryError::MalformedDevice),
        Some(name) => match client_list(document) {
            None => Err(RegistryError::MalformedDocument),
            Some(clients) => match lookup(name_tests(clients, name)) {
                Lookup::Found(_) => Err(RegistryError::DuplicateDevice),
                Lookup::Unreadable => Err(RegistryError::MalformedDocument),
                Lookup::Absent => if name == reserved_name() {
                    Err(RegistryError::InvalidName)
                } else {
                    Ok(with_clients(document, clients.push(device)))
                },
            },
        },
    }
}

/// The text of a new registry, where there is one.
pub open spec fn written(outcome: Result<Json, RegistryError>) -> Result<Seq<char>, RegistryError> {
    match outcome {
        Err(error) => Err(error),
        Ok(document) => match json_pretty(document) {
            Some(text) => Ok(text),
            None => Err(RegistryError::Unwritable),
        },
    }
}

/// The text of the registry after the device that `device` spells was added
/// to the registry that `document` spells, or why there is none.
pub open spec fn spec_add_device_text(document: Seq<char>, device: Seq<char>) -> Result<
    Seq<char>,
    RegistryError,
> {
    match json_parse(document) {
        None => Err(RegistryError::MalformedDocument),
        Some(registry) => match json_parse(device) {
            None => Err(RegistryError::MalformedDevice),
            Some(entry) => written(spec_add_device(registry, entry)),
        },
    }
}

/// Whether `outcome` is the value, or the error, that `expected` describes.
pub open spec fn gives(outcome: Result<Value, RegistryError>, expected: Result<Json, RegistryError>) -> bool {
    match outcome {
        Ok(value) => expected == Ok::<Json, RegistryError>(json_of(value)),
        Err(error) => expected == Err::<Json, RegistryError>(error),
    }
}

/// Whether `outcome` is the text, or the error, that `expected` describes.
pub open spec fn gives_text(
    outcome: Result<String, RegistryError>,
    expected: Result<Seq<char>, RegistryError>,
) -> bool {
    match outcome {
        Ok(text) => expected == Ok::<Seq<char>, RegistryError>(text@),
        Err(error) => expected == Err::<Seq<char>, RegistryError>(error),
    }
}

/// The text member `key` of an object.
pub fn text_member_of<'a>(value: &'a Value, key: &str) -> (r: Option<&'a str>)
    ensures
        r is Some <==> json_of(*value).text_member(key@) is Some,
        r matches Some(text) ==> json_of(*value).text_member(key@) == Some(text@),
{
    match member(value, key) {
        Some(found) => text_of(found),
        None => None,
    }
}

/// Copies a list of values.
pub fn copy_items(items: &Vec<Value>) -> (r: Vec<Value>)
    ensures
        jsons_of(r@) == jsons_of(items@),
{
    let mut copies: Vec<Value> = Vec::new();
    let mut i: usize = 0;
    while i < items.len()
        invariant
            i <= items@.len(),
            jsons_of(copies@) == jsons_of(items@).subrange(0, i as int),
        decreases items@.len() - i,
    {
        let ghost before = copies@;
        let copy = copy_of(&items[i]);
        copies.push(copy);
        proof {
            lemma_jsons_of_push(before, copy);
            assert(jsons_of(copies@) =~= jsons_of(items@).subrange(0, i + 1));
        }
        i += 1;
    }
    assert(jsons_of(copies@) =~= jsons_of(items@));
    copies
}

/// Searches the devices for the first of the given name.
pub fn find_client(clients: &Vec<Value>, name: &str) -> (r: Lookup)
    ensures
        r == lookup(name_tests(jsons_of(clients@), name@)),
{
    let ghost tests = name_tests(jsons_of(clients@), name@);
    let mut i: usize = 0;
    while i < clients.len()
        invariant
            i <= clients@.len(),
            tests == name_tests(jsons_of(clients@), name@),
            forall|j: int| 0 <= j < i ==> tests[j] == Some(false),
        decreases clients@.len() - i,
    {
        assert(jsons_of(clients@)[i as int] == json_of(clients@[i as int]));
        match text_member_of(&clients[i], "Name") {
            None => {
                proof {
                    lemma_lookup_at(tests, i as int);
                }
                return Lookup::Unreadable;
            },
            Some(found) => {
                if str_eq(found, name) {
                    proof {
                        lemma_lookup_at(tests, i as int);
                    }
                    return Lookup::Found(i);
                }
            },
        }
        i += 1;
    }
    proof {
        lemma_lookup_absent(tests);
    }
    Lookup::Absent
}

/// Writes a new registry as text.
pub fn write_document(outcome: Result<Value, RegistryError>) -> (r: Result<String, RegistryError>)
    ensures
        forall|expected: Result<Json, RegistryError>|
            gives(outcome, expected) ==> gives_text(r, written(expected)),
{
    match outcome {
        Err(error) => Err(error),
        Ok(document) => match to_pretty_text(&document) {
            Some(text) => Ok(text),
            None => Err(RegistryError::Unwritable),
        },
    }
}

/// Adds a device to the registry.  On success the result is the registry
/// with the device at the end of its list.
pub fn add_device_value(document: Value, device: Value) -> (r: Result<Value, RegistryError>)
    ensures
        gives(r, spec_add_device(json_of(document), json_of(device))),
{
    let mut document = document;
    let mut clients: Vec<Value> = match text_member_of(&device, "Name") {
        None => {
            return Err(RegistryError::MalformedDevice);
        },
        Some(name) => {
            let list = match member(&document, "Clients") {
                None => {
                    return Err(RegistryError::MalformedDocument);
                },
                Some(list) => list,
            };
            let clients = match items_of(list) {
                None => {
                    return Err(RegistryError::MalformedDocument);
                },
                Some(clients) => clients,
            };
            match find_client(clients, name) {
                Lookup::Found(_) => {
                    return Err(RegistryError::DuplicateDevice);
                },
                Lookup::Unreadable => {
                    return Err(RegistryError::MalformedDocument);
                },
                Lookup::Absent => {},
            }
            if str_eq(name, "running") {
                return Err(RegistryError::InvalidName);
            }
            copy_items(clients)
        },
    };
    let ghost before = clients@;
    clients.push(device);
    proof {
        lemma_jsons_of_push(before, device);
    }
    set_member(&mut document, "Clients", array_of(clients));
    Ok(document)
}

/// Adds the device that `device` spells to the registry that `document`
/// spells, and gives the text of the new registry.
pub fn add_device(document: &str, device: &str) -> (r: Result<String, RegistryError>)
    ensures
        gives_text(r, spec_add_device_text(document@, device@)),
{
    let registry = match parse(document) {
        None => {
            return Err(RegistryError::MalformedDocument);
        },
        Some(registry) => registry,
    };
    let entry = match parse(device) {
        None => {
            return Err(RegistryError::MalformedDevice);
        },
        Some(entry) => entry,
    };
    write_document(add_device_value(registry, entry))
}

/// Whether a device has a name, and another one than `name`.
pub open spec fn has_other_name(name: Seq<char>) -> spec_fn(Json) -> bool {
    |client: Json| name_test(client, name) == Some(false)
}

/// Whether every device of the list has a name.
pub open spec fn all_named(clients: Seq<Json>) -> bool {
    forall|i: int| 0 <= i < clients.len() ==> name_of(#[trigger] clients[i]) is Some
}

/// The registry after every device named `name` was removed, or why it
/// cannot be made.
///
/// The registry needs a list of devices that all have names.  The new
/// registry holds the devices of other names, in their order, and no other
/// member than that list.  Removing a name that no device has changes
/// nothing but that.
pub open spec fn spec_remove_device(document: Json, name: Seq<char>) -> Result<Json, RegistryError> {
    match client_list(document) {
        None => Err(RegistryError::MalformedDocument),
        Some(clients) => if all_named(clients) {
            Ok(
                with_clients(
                    Json::Object(Map::<Seq<char>, Json>::empty()),
                    clients.filter(has_other_name(name)),
                ),
            )
        } else {
            Err(RegistryError::MalformedDocument)
        },
    }
}

/// The text of the registry that `document` spells after every device named
/// `name` was removed, or why there is none.
pub open spec fn spec_remove_device_text(document: Seq<char>, name: Seq<char>) -> Result<
    Seq<char>,
    RegistryError,
> {
    match json_parse(document) {
        None => Err(RegistryError::MalformedDocument),
        Some(registry) => written(spec_remove_device(registry, name)),
    }
}

/// Removes every device named `name` from the registry.
pub fn remove_device_value(document: &Value, name: &str) -> (r: Result<Value, RegistryError>)
    ensures
        gives(r, spec_remove_device(json_of(*document), name@)),
{
    let list = match member(document, "Clients") {
        None => {
            return Err(RegistryError::MalformedDocument);
        },
        Some(list) => list,
    };
    let clients = match items_of(list) {
        None => {
            return Err(RegistryError::MalformedDocument);
        },
        Some(clients) => clients,
    };
    let ghost all = jsons_of(clients@);
    let ghost keep = has_other_name(name@);
    let mut kept: Vec<Value> = Vec::new();
    let mut i: usize = 0;
    assert(all.subrange(0, 0) =~= Seq::<Json>::empty());
    proof {
        Seq::<Json>::empty().lemma_all_neg_filter_empty(keep);
    }
    while i < clients.len()
        invariant
            i <= clients@.len(),
            all == jsons_of(clients@),
            client_list(json_of(*document)) == Some(all),
            keep == has_other_name(name@),
            forall|j: int| 0 <= j < i ==> name_of(#[trigger] all[j]) is Some,
            jsons_of(kept@) == all.subrange(0, i as int).filter(keep),
        decreases clients@.len() - i,
    {
        assert(all[i as int] == json_of(clients@[i as int]));
        proof {
            all.subrange(0, i as int).lemma_filter_push(all[i as int], keep);
            assert(all.subrange(0, i as int).push(all[i as int]) =~= all.subrange(0, i + 1));
        }
        match text_member_of(&clients[i], "Name") {
            None => {
                assert(name_of(all[i as int]) is None);
                return Err(RegistryError::MalformedDocument);
            },
            Some(found) => {
                if !str_eq(found, name) {
                    let ghost before = kept@;
                    let copy = copy_of(&clients[i]);
                    kept.push(copy);
                    proof {
                        lemma_jsons_of_push(before, copy);
                    }
                }
            },
        }
        i += 1;
    }
    assert(all.subrange(0, i as int) =~= all);
    let mut document = empty_object();
    set_member(&mut document, "Clients", array_of(kept));
    Ok(document)
}

/// Removes every device named `name` from the registry that `document`
/// spells, and gives the text of the new registry.
pub fn remove_device(document: &str, name: &str) -> (r: Result<String, RegistryError>)
    ensures
        gives_text(r, spec_remove_device_text(document@, name@)),
{
    let registry = match parse(document) {
        None => {
            return Err(RegistryError::MalformedDocument);
        },
        Some(registry) => registry,
    };
    write_document(remove_device_value(&registry, name))
}

/// The first device of the registry that is named `name`, if the registry
/// can be read that far and has one.
pub open spec fn spec_find_device(document: Json, name: Seq<char>) -> Option<Json> {
    match client_list(document) {
        None => None,
        Some(clients) => match lookup(name_tests(clients, name)) {
            Lookup::Found(i) => Some(clients[i as int]),
            _ => None,
        },
    }
}

/// Looks a device up by its name.
pub fn find_device<'a>(document: &'a Value, name: &str) -> (r: Option<&'a Value>)
    ensures
        r is Some <==> spec_find_device(json_of(*document), name@) is Some,
        r matches Some(device) ==> spec_find_device(json_of(*document), name@) == Some(
            json_of(*device),
        ),
{
    let list = match member(document, "Clients") {
        None => {
            return None;
        },
        Some(list) => list,
    };
    let clients = match items_of(list) {
        None => {
            return None;
        },
        Some(clients) => clients,
    };
    match find_client(clients, name) {
        Lookup::Found(i) => {
            proof {
                assert(name_tests(jsons_of(clients@), name@).len() == clients.len());
                lemma_lookup_found(name_tests(jsons_of(clients@), name@));
            }
            assert(jsons_of(clients@)[i as int] == json_of(clients@[i as int]));
            Some(&clients[i])
        },
        _ => None,
    }
}

/// Whether every device of the list has a name, no two share one, and none
/// has the reserved name.
pub open spec fn names_sound_in(clients: Seq<Json>) -> bool {
    &&& all_named(clients)
    &&& forall|i: int, j: int|
        0 <= i < j < clients.len() ==> name_of(#[trigger] clients[i]) != name_of(
            #[trigger] clients[j],
        )
    &&& forall|i: int|
        0 <= i < clients.len() ==> name_of(#[trigger] clients[i]) != Some(reserved_name())
}

/// Whether the names of a registry are sound: it lists its devices, every
/// device has a name, no two devices share one, and none has the reserved
/// name.
pub open spec fn names_sound(document: Json) -> bool {
    match client_list(document) {
        None => false,
        Some(clients) => names_sound_in(clients),
    }
}

/// A device with the reserved name is never added, whatever the registry
/// holds.
pub proof fn lemma_reserved_name_is_refused(document: Json, device: Json)
    requires
        name_of(device) == Some(reserved_name()),
    ensures
        spec_add_device(document, device) is Err,
{
}

/// A device is added only if no device of the registry has its name.
pub proof fn lemma_taken_name_is_refused(document: Json, device: Json, i: int)
    requires
        client_list(document) matches Some(clients) && 0 <= i < clients.len() && name_of(
            clients[i],
        ) is Some && name_of(clients[i]) == name_of(device),
    ensures
        spec_add_device(document, device) is Err,
{
    let clients = client_list(document)->0;
    let tests = name_tests(clients, name_of(device)->0);
    assert(tests[i] == Some(true));
    lemma_lookup_meaning(tests);
}

/// Adding a device keeps the names of a registry sound.
pub proof fn lemma_add_device_keeps_names_sound(document: Json, device: Json)
    requires
        names_sound(document),
        spec_add_device(document, device) is Ok,
    ensures
        names_sound(spec_add_device(document, device)->Ok_0),
{
    let clients = client_list(document)->0;
    let name = name_of(device)->0;
    let tests = name_tests(clients, name);
    let next = clients.push(device);
    lemma_lookup_meaning(tests);
    reveal_strlit("Clients");
    assert(client_list(with_clients(document, next)) == Some(next));
    assert forall|i: int| 0 <= i < next.len() implies name_of(#[trigger] next[i]) is Some
        && name_of(next[i]) != Some(reserved_name()) by {
        if i < clients.len() {
            assert(next[i] == clients[i]);
        }
    }
    assert forall|i: int, j: int| 0 <= i < j < next.len() implies name_of(#[trigger] next[i])
        != name_of(#[trigger] next[j]) by {
        assert(next[i] == clients[i]);
        if j < clients.len() {
            assert(next[j] == clients[j]);
        } else {
            assert(tests[i] == Some(false));
        }
    }
}

/// A registry with sound names holds no device of the reserved name: a
/// lookup of that name finds nothing.
pub proof fn lemma_reserved_name_is_never_found(document: Json)
    requires
        names_sound(document),
    ensures
        spec_find_device(document, reserved_name()) is None,
{
    let clients = client_list(document)->0;
    let tests = name_tests(clients, reserved_name());
    assert forall|j: int| 0 <= j < tests.len() implies tests[j] == Some(false) by {
        assert(name_of(clients[j]) is Some);
    }
    lemma_lookup_meaning(tests);
}

/// After a name was removed, a lookup of it finds nothing.
pub proof fn lemma_removed_device_is_gone(document: Json, name: Seq<char>)
    requires
        spec_remove_device(document, name) is Ok,
    ensures
        spec_find_device(spec_remove_device(document, name)->Ok_0, name) is None,
{
    let clients = client_list(document)->0;
    let kept = clients.filter(has_other_name(name));
    let next = spec_remove_device(document, name)->Ok_0;
    assert(client_list(next) == Some(kept));
    let tests = name_tests(kept, name);
    assert forall|j: int| 0 <= j < tests.len() implies tests[j] == Some(false) by {
        clients.lemma_filter_pred(has_other_name(name), j);
    }
    lemma_lookup_meaning(tests);
}

/// Leaving devices out of a list with sound names leaves the names sound,
/// and brings in no name that the list did not have.
proof fn lemma_filter_keeps_names_sound(clients: Seq<Json>, keep: spec_fn(Json) -> bool)
    requires
        names_sound_in(clients),
    ensures
        names_sound_in(clients.filter(keep)),
        forall|k: int|
            0 <= k < clients.filter(keep).len() ==> exists|i: int|
                0 <= i < clients.len() && clients[i] == #[trigger] clients.filter(keep)[k],
    decreases clients.len(),
{
    reveal(Seq::filter);
    if clients.len() > 0 {
        let front = clients.drop_last();
        let kept = front.filter(keep);
        assert forall|i: int| 0 <= i < front.len() implies front[i] == clients[i] by {}
        assert(names_sound_in(front)) by {
            assert forall|i: int| 0 <= i < front.len() implies name_of(#[trigger] front[i]) is Some
                && name_of(front[i]) != Some(reserved_name()) by {
                assert(front[i] == clients[i]);
            }
            assert forall|i: int, j: int| 0 <= i < j < front.len() implies name_of(
                #[trigger] front[i],
            ) != name_of(#[trigger] front[j]) by {
                assert(front[i] == clients[i]);
                assert(front[j] == clients[j]);
            }
        }
        lemma_filter_keeps_names_sound(front, keep);
        let last = clients.last();
        let all = clients.filter(keep);
        assert forall|k: int| 0 <= k < all.len() implies exists|i: int|
            0 <= i < clients.len() && clients[i] == #[trigger] all[k] by {
            if k < kept.len() {
                assert(all[k] == kept[k]);
                let i = choose|i: int| 0 <= i < front.len() && front[i] == kept[k];
                assert(clients[i] == all[k]);
            } else {
                assert(all[k] == last);
                assert(clients[clients.len() - 1] == all[k]);
            }
        }
        assert forall|i: int| 0 <= i < all.len() implies name_of(#[trigger] all[i]) is Some
            && name_of(all[i]) != Some(reserved_name()) by {
            let at = choose|at: int| 0 <= at < clients.len() && clients[at] == all[i];
            assert(name_of(clients[at]) is Some);
        }
        assert forall|i: int, j: int| 0 <= i < j < all.len() implies name_of(#[trigger] all[i])
            != name_of(#[trigger] all[j]) by {
            if j < kept.len() {
                assert(all[i] == kept[i]);
                assert(all[j] == kept[j]);
            } else {
                assert(all[j] == last);
                assert(all[i] == kept[i]);
                let at = choose|at: int| 0 <= at < front.len() && front[at] == kept[i];
                assert(clients[at] == all[i]);
                assert(name_of(clients[at]) != name_of(clients[clients.len() - 1]));
            }
        }
    }
}

/// Removing a name keeps the names of a registry sound.
pub proof fn lemma_remove_device_keeps_names_sound(document: Json, name: Seq<char>)
    requires
        names_sound(document),
        spec_remove_device(document, name) is Ok,
    ensures
        names_sound(spec_remove_device(document, name)->Ok_0),
{
    let clients = client_list(document)->0;
    let kept = clients.filter(has_other_name(name));
    let next = spec_remove_device(document, name)->Ok_0;
    assert(client_list(next) == Some(kept));
    lemma_filter_keeps_names_sound(clients, has_other_name(name));
}

impl RegistryError {
    /// The text shown for a refusal; `name` is the name of the device or of
    /// the user node that the refusal is about.
    pub open spec fn spec_message(self, name: Seq<char>) -> Seq<char> {
        match self {
            RegistryError::MalformedDocument => "Malformed registry"@,
            RegistryError::MalformedDevice => "Malformed device"@,
            RegistryError::MalformedUserNode => "Malformed user node"@,
            RegistryError::DuplicateDevice => "Duplicate device "@ + name,
            RegistryError::InvalidName => "Invalid name "@ + name,
            RegistryError::DuplicateUserNode => "Duplicate user node '"@ + name + "'"@,
            RegistryError::UnknownDevice => "Unknown device "@ + name,
            RegistryError::UnknownUserNode => "Unknown user node '"@ + name + "'"@,
            RegistryError::Unwritable => "Registry cannot be written"@,
        }
    }

    /// The text shown for a refusal.
    pub fn message(self, name: &str) -> (text: String)
        ensures
            text@ == self.spec_message(name@),
    {
        match self {
            RegistryError::MalformedDocument => String::from_str("Malformed registry"),
            RegistryError::MalformedDevice => String::from_str("Malformed device"),
            RegistryError::MalformedUserNode => String::from_str("Malformed user node"),
            RegistryError::DuplicateDevice => String::from_str("Duplicate device ").concat(name),
            RegistryError::InvalidName => String::from_str("Invalid name ").concat(name),
            RegistryError::DuplicateUserNode => String::from_str("Duplicate user node '").concat(
                name,
            ).concat("'"),
            RegistryError::UnknownDevice => String::from_str("Unknown device ").concat(name),
            RegistryError::UnknownUserNode => String::from_str("Unknown user node '").concat(
                name,
            ).concat("'"),
            RegistryError::Unwritable => String::from_str("Registry cannot be written"),
        }
    }
}

/// The name that the text of a device or of a user node gives it.
pub open spec fn spec_name_in(entry: Seq<char>) -> Option<Seq<char>> {
    match json_parse(entry) {
        Some(value) => name_of(value),
        None => None,
    }
}

/// Reads the name out of the text of a device or of a user node.
pub fn name_in(entry: &str) -> (r: Option<String>)
    ensures
        r is Some <==> spec_name_in(entry@) is Some,
        r matches Some(name) ==> spec_name_in(entry@) == Some(name@),
{
    match parse(entry) {
        None => None,
        Some(value) => match text_member_of(&value, "Name") {
            Some(name) => Some(String::from_str(name)),
            None => None,
        },
    }
}

} // verus!
