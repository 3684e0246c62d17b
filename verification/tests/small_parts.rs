use aerion_control::decimal::{append_digits, decimal_text};
use aerion_control::device::DeviceType;
use aerion_control::paths::{
    base_directory, directory_name, registry_file, settings_file, BaseDirectory,
};
use aerion_control::probe::ProbeFailureReason;
use aerion_control::target::{read_target, read_target_value, ProbeTarget};
use aerion_control::text::{
    bytes_eq, bytes_of, starts_with, starts_with_ignoring_case, str_eq, to_ascii_lower,
};

#[test]
fn decimal_text_matches_the_usual_notation() {
    for n in [0i64, 1, 9, 10, 11, 99, 100, 101, 4840, 65535, -1, -9, -10, -4840, i64::MAX, i64::MIN] {
        assert_eq!(decimal_text(n), n.to_string());
    }
    assert_eq!(decimal_text(-9223372036854775808), "-9223372036854775808");
    assert_eq!(decimal_text(1000000), "1000000");
}

#[test]
fn digits_are_appended_to_what_is_there() {
    let mut text = "port ".to_string();
    append_digits(&mut text, 502);
    assert_eq!(text, "port 502");
    append_digits(&mut text, 0);
    assert_eq!(text, "port 5020");
    append_digits(&mut text, u64::MAX);
    assert_eq!(text, "port 502018446744073709551615");
}

#[test]
fn device_types_are_read_from_their_names() {
    assert_eq!(DeviceType::from_name("Robot"), Some(DeviceType::Robot));
    assert_eq!(DeviceType::from_name("PLC"), Some(DeviceType::Plc));
    for name in ["", "robot", "ROBOT", "plc", "Plc", "PLC ", "Camera", "Robot2"] {
        assert_eq!(DeviceType::from_name(name), None, "{}", name);
    }
    assert_eq!(DeviceType::Robot.name(), "Robot");
    assert_eq!(DeviceType::Plc.name(), "PLC");
    for device_type in [DeviceType::Robot, DeviceType::Plc] {
        assert_eq!(DeviceType::from_name(device_type.name()), Some(device_type));
    }
}

fn target(device_type: DeviceType, host: &str, port: u16) -> ProbeTarget {
    ProbeTarget { device_type, host: host.to_string(), port }
}

#[test]
fn target_is_read_from_a_device() {
    assert_eq!(
        read_target(r#"{"Name": "plc1", "Ip": "10.0.0.1", "Port": 5000, "Type": "PLC"}"#),
        Ok(target(DeviceType::Plc, "10.0.0.1", 5000))
    );
    assert_eq!(
        read_target(r#"{"Type": "Robot", "Port": 0, "Ip": "robot.local", "UserNodes": []}"#),
        Ok(target(DeviceType::Robot, "robot.local", 0))
    );
    assert_eq!(
        read_target(r#"{"Ip": "::1", "Port": 65535, "Type": "Robot"}"#),
        Ok(target(DeviceType::Robot, "::1", 65535))
    );
}

#[test]
fn device_without_address_gives_address_error() {
    let expected = Err(ProbeFailureReason::AddressError);
    assert_eq!(read_target("not json"), expected);
    assert_eq!(read_target("[]"), expected);
    assert_eq!(read_target(r#"{"Port": 1, "Type": "PLC"}"#), expected);
    assert_eq!(read_target(r#"{"Ip": 7, "Port": 1, "Type": "PLC"}"#), expected);
    assert_eq!(read_target(r#"{"Ip": "h", "Type": "PLC"}"#), expected);
    assert_eq!(read_target(r#"{"Ip": "h", "Port": "80", "Type": "PLC"}"#), expected);
    assert_eq!(read_target(r#"{"Ip": "h", "Port": 80.5, "Type": "PLC"}"#), expected);
    assert_eq!(read_target(r#"{"Ip": "h", "Port": -1, "Type": "PLC"}"#), expected);
    assert_eq!(read_target(r#"{"Ip": "h", "Port": 65536, "Type": "PLC"}"#), expected);
    assert_eq!(read_target(r#"{"Ip": "h", "Port": 18446744073709551615, "Type": "PLC"}"#), expected);
    // The address is judged before the type.
    assert_eq!(read_target(r#"{"Ip": "h", "Port": 70000, "Type": "Camera"}"#), expected);
}

#[test]
fn device_of_other_type_gives_unsupported_device_type() {
    let expected = Err(ProbeFailureReason::UnsupportedDeviceType);
    assert_eq!(read_target(r#"{"Ip": "h", "Port": 80, "Type": "Camera"}"#), expected);
    assert_eq!(read_target(r#"{"Ip": "h", "Port": 80, "Type": "plc"}"#), expected);
    assert_eq!(read_target(r#"{"Ip": "h", "Port": 80, "Type": 1}"#), expected);
    assert_eq!(read_target(r#"{"Ip": "h", "Port": 80}"#), expected);
    assert_eq!(read_target(r#"{"Ip": "h", "Port": 80, "type": "PLC"}"#), expected);
    let device: serde_json::Value = serde_json::from_str(r#"{"Ip": "h", "Port": 80}"#).unwrap();
    assert_eq!(read_target_value(&device), expected);
}

#[test]
fn target_address_is_host_colon_port() {
    assert_eq!(target(DeviceType::Plc, "10.0.0.1", 5000).address(), "10.0.0.1:5000");
    assert_eq!(target(DeviceType::Robot, "[::1]", 0).address(), "[::1]:0");
    assert_eq!(target(DeviceType::Robot, "", 65535).address(), ":65535");
}

#[test]
fn prefixes_are_compared_byte_by_byte() {
    assert!(starts_with(b"abcdef", b"abc"));
    assert!(starts_with(b"abc", b"abc"));
    assert!(starts_with(b"abc", b""));
    assert!(starts_with(b"", b""));
    assert!(!starts_with(b"ab", b"abc"));
    assert!(!starts_with(b"abd", b"abc"));
    assert!(!starts_with(b"xbc", b"abc"));
    assert!(!starts_with(b"ABC", b"abc"));
    assert!(!starts_with(b"", b"a"));
}

#[test]
fn prefixes_ignore_the_case_of_ascii_letters_only() {
    assert!(starts_with_ignoring_case(b"QOK1", b"qok"));
    assert!(starts_with_ignoring_case(b"qOk", b"qok"));
    assert!(starts_with_ignoring_case(b"a-Z", b"a-z"));
    assert!(!starts_with_ignoring_case(b"qo", b"qok"));
    assert!(!starts_with_ignoring_case(b"qok", b"QOK"));
    assert!(!starts_with_ignoring_case(&[0x40], &[0x60]));
    assert!(!starts_with_ignoring_case(&[0x5b], &[0x7b]));
    assert!(!starts_with_ignoring_case(&[0xc4], &[0xe4]));
    for b in 0..=255u8 {
        assert_eq!(to_ascii_lower(b), b.to_ascii_lowercase());
    }
}

#[test]
fn texts_and_bytes_are_compared_exactly() {
    assert!(bytes_eq(b"", b""));
    assert!(bytes_eq(b"abc", b"abc"));
    assert!(!bytes_eq(b"abc", b"abd"));
    assert!(!bytes_eq(b"abc", b"ab"));
    assert!(!bytes_eq(b"ab", b"abc"));
    assert!(str_eq("", ""));
    assert!(str_eq("größe", "größe"));
    assert!(!str_eq("größe", "grösse"));
    assert!(!str_eq("a", "A"));
    assert_eq!(bytes_of("1;1;OPEN=ROBOT"), b"1;1;OPEN=ROBOT");
}

#[test]
fn files_live_below_the_base_directory_of_the_platform() {
    assert_eq!(base_directory(true), BaseDirectory::Config);
    assert_eq!(base_directory(false), BaseDirectory::Home);
    assert_eq!(directory_name(true), "Aerion OPC-UA Server");
    assert_eq!(directory_name(false), ".aerionuaserver");
    assert_eq!(registry_file(), "clients.json");
    assert_eq!(settings_file(), "server.json");
}
