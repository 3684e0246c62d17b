use aerion_control::lookup::Lookup;
use aerion_control::registry::RegistryError;
use aerion_control::user_nodes::{
    add_user_node, add_user_node_value, find_node, remove_user_node, remove_user_node_value,
    test_node,
};
use serde_json::Value;

fn value(text: &str) -> Value {
    serde_json::from_str(text).unwrap()
}

const REGISTRY: &str = r#"{"Owner": "me", "Clients": [
    {"Name": "plc1", "Type": "PLC"},
    {"Name": "arm", "Type": "Robot", "UserNodes": [
        {"Name": "speed", "Parent": "Axis1"},
        {"Name": "speed", "Parent": "Axis2", "Unit": "mm/s"}
    ]}
]}"#;

#[test]
fn first_user_node_creates_the_list() {
    let next = add_user_node(REGISTRY, "plc1", r#"{"Name": "temp", "Parent": "Root"}"#).unwrap();
    assert_eq!(
        value(&next),
        value(
            r#"{"Owner": "me", "Clients": [
                {"Name": "plc1", "Type": "PLC", "UserNodes": [{"Name": "temp", "Parent": "Root"}]},
                {"Name": "arm", "Type": "Robot", "UserNodes": [
                    {"Name": "speed", "Parent": "Axis1"},
                    {"Name": "speed", "Parent": "Axis2", "Unit": "mm/s"}
                ]}
            ]}"#
        )
    );
}

#[test]
fn further_user_node_goes_to_the_end() {
    let node = r#"{"Name": "speed", "Parent": "Axis3", "Extra": [1]}"#;
    let next = add_user_node(REGISTRY, "arm", node).unwrap();
    assert_eq!(
        value(&next),
        value(
            r#"{"Owner": "me", "Clients": [
                {"Name": "plc1", "Type": "PLC"},
                {"Name": "arm", "Type": "Robot", "UserNodes": [
                    {"Name": "speed", "Parent": "Axis1"},
                    {"Name": "speed", "Parent": "Axis2", "Unit": "mm/s"},
                    {"Name": "speed", "Parent": "Axis3", "Extra": [1]}
                ]}
            ]}"#
        )
    );
}

#[test]
fn same_name_and_parent_is_a_duplicate() {
    assert_eq!(
        add_user_node(REGISTRY, "arm", r#"{"Name": "speed", "Parent": "Axis2"}"#),
        Err(RegistryError::DuplicateUserNode)
    );
    // The same pair under another device is none.
    assert!(add_user_node(REGISTRY, "plc1", r#"{"Name": "speed", "Parent": "Axis2"}"#).is_ok());
    // Neither is the same name under another parent, or the reverse.
    assert!(add_user_node(REGISTRY, "arm", r#"{"Name": "speed", "Parent": "axis2"}"#).is_ok());
    assert!(add_user_node(REGISTRY, "arm", r#"{"Name": "Axis2", "Parent": "speed"}"#).is_ok());
}

#[test]
fn user_node_goes_to_the_first_device_of_the_name() {
    let document = r#"{"Clients": [{"Name": "a", "n": 1}, {"Name": "a", "n": 2}]}"#;
    let next = add_user_node(document, "a", r#"{"Name": "x", "Parent": "y"}"#).unwrap();
    assert_eq!(
        value(&next),
        value(
            r#"{"Clients": [{"Name": "a", "n": 1, "UserNodes": [{"Name": "x", "Parent": "y"}]},
                            {"Name": "a", "n": 2}]}"#
        )
    );
}

#[test]
fn add_user_node_refuses_malformed_input() {
    let node = r#"{"Name": "x", "Parent": "y"}"#;
    assert_eq!(add_user_node("{", "arm", node), Err(RegistryError::MalformedDocument));
    assert_eq!(add_user_node(REGISTRY, "arm", "{"), Err(RegistryError::MalformedUserNode));
    assert_eq!(
        add_user_node(REGISTRY, "arm", r#"{"Name": "x"}"#),
        Err(RegistryError::MalformedUserNode)
    );
    assert_eq!(
        add_user_node(REGISTRY, "arm", r#"{"Parent": "y"}"#),
        Err(RegistryError::MalformedUserNode)
    );
    assert_eq!(
        add_user_node(REGISTRY, "arm", r#"{"Name": "x", "Parent": 3}"#),
        Err(RegistryError::MalformedUserNode)
    );
    assert_eq!(add_user_node(REGISTRY, "nobody", node), Err(RegistryError::UnknownDevice));
    assert_eq!(add_user_node("{}", "arm", node), Err(RegistryError::MalformedDocument));
    assert_eq!(
        add_user_node(r#"{"Clients": [{"Name": "arm", "UserNodes": {}}]}"#, "arm", node),
        Err(RegistryError::MalformedDocument)
    );
    assert_eq!(
        add_user_node(r#"{"Clients": [{"Nam": "arm"}, {"Name": "arm"}]}"#, "arm", node),
        Err(RegistryError::MalformedDocument)
    );
}

#[test]
fn parent_is_looked_at_only_where_the_name_fits() {
    assert_eq!(test_node(&value(r#"{"Name": "a", "Parent": "p"}"#), "a", "p"), Some(true));
    assert_eq!(test_node(&value(r#"{"Name": "a", "Parent": "q"}"#), "a", "p"), Some(false));
    assert_eq!(test_node(&value(r#"{"Name": "b", "Parent": "p"}"#), "a", "p"), Some(false));
    assert_eq!(test_node(&value(r#"{"Name": "b"}"#), "a", "p"), Some(false));
    assert_eq!(test_node(&value(r#"{"Name": "a"}"#), "a", "p"), None);
    assert_eq!(test_node(&value(r#"{"Parent": "p"}"#), "a", "p"), None);
    assert_eq!(test_node(&value(r#""a""#), "a", "p"), None);

    // A node of another name needs no parent to be passed over.
    let document = r#"{"Clients": [{"Name": "d", "UserNodes": [{"Name": "other"}]}]}"#;
    assert!(add_user_node(document, "d", r#"{"Name": "x", "Parent": "y"}"#).is_ok());
    assert_eq!(
        add_user_node(document, "d", r#"{"Name": "other", "Parent": "y"}"#),
        Err(RegistryError::MalformedDocument)
    );
}

#[test]
fn nodes_are_searched_front_to_back() {
    let nodes = vec![
        value(r#"{"Name": "a", "Parent": "p"}"#),
        value(r#"{"Name": "b", "Parent": "p"}"#),
        value(r#"{"Name": "a", "Parent": "q"}"#),
        value(r#"{"Name": "b", "Parent": "p", "second": true}"#),
        value("3"),
        value(r#"{"Name": "c", "Parent": "p"}"#),
    ];
    assert_eq!(find_node(&nodes, "a", "p"), Lookup::Found(0));
    assert_eq!(find_node(&nodes, "b", "p"), Lookup::Found(1));
    assert_eq!(find_node(&nodes, "a", "q"), Lookup::Found(2));
    assert_eq!(find_node(&nodes, "c", "p"), Lookup::Unreadable);
    assert_eq!(find_node(&nodes[..4].to_vec(), "c", "p"), Lookup::Absent);
}

#[test]
fn remove_user_node_removes_the_first_match_only() {
    let document = r#"{"Clients": [{"Name": "d", "UserNodes": [
        {"Name": "a", "Parent": "p", "n": 1},
        {"Name": "b", "Parent": "p"},
        {"Name": "a", "Parent": "p", "n": 2}
    ]}]}"#;
    let next = remove_user_node(document, "d", "a", "p").unwrap();
    assert_eq!(
        value(&next),
        value(
            r#"{"Clients": [{"Name": "d", "UserNodes": [
                {"Name": "b", "Parent": "p"},
                {"Name": "a", "Parent": "p", "n": 2}
            ]}]}"#
        )
    );
}

#[test]
fn remove_user_node_keeps_everything_else() {
    let next = remove_user_node(REGISTRY, "arm", "speed", "Axis2").unwrap();
    assert_eq!(
        value(&next),
        value(
            r#"{"Owner": "me", "Clients": [
                {"Name": "plc1", "Type": "PLC"},
                {"Name": "arm", "Type": "Robot", "UserNodes": [{"Name": "speed", "Parent": "Axis1"}]}
            ]}"#
        )
    );
    let last = remove_user_node(&next, "arm", "speed", "Axis1").unwrap();
    assert_eq!(
        value(&last),
        value(
            r#"{"Owner": "me", "Clients": [
                {"Name": "plc1", "Type": "PLC"},
                {"Name": "arm", "Type": "Robot", "UserNodes": []}
            ]}"#
        )
    );
}

#[test]
fn remove_user_node_refuses_what_is_not_there() {
    assert_eq!(
        remove_user_node(REGISTRY, "arm", "speed", "Axis9"),
        Err(RegistryError::UnknownUserNode)
    );
    assert_eq!(
        remove_user_node(REGISTRY, "plc1", "speed", "Axis1"),
        Err(RegistryError::UnknownUserNode)
    );
    assert_eq!(
        remove_user_node(REGISTRY, "nobody", "speed", "Axis1"),
        Err(RegistryError::UnknownDevice)
    );
    assert_eq!(remove_user_node("[", "arm", "speed", "Axis1"), Err(RegistryError::MalformedDocument));
    assert_eq!(
        remove_user_node(r#"{"Clients": [{"Name": "arm", "UserNodes": 1}]}"#, "arm", "a", "b"),
        Err(RegistryError::MalformedDocument)
    );
}

#[test]
fn added_user_node_can_be_removed_again() {
    let node = r#"{"Name": "torque", "Parent": "Axis1"}"#;
    let added = add_user_node_value(value(REGISTRY), "arm", value(node)).unwrap();
    let removed = remove_user_node_value(added, "arm", "torque", "Axis1").unwrap();
    assert_eq!(removed, value(REGISTRY));
}
