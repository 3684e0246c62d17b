//! Control-plane companion of an industrial OPC-UA gateway.
//!
//! The companion keeps a registry of the devices behind the gateway, tests
//! whether a device can be reached, and relays the notifications of the
//! running server to the presentation layer.  This crate holds its
//! decisions:
//!
//! - [`frame`]: the binary frames of the PLC loopback test.
//! - [`probe`], [`handshake`]: what a connectivity probe sends, how it
//!   judges the answer, and in which order its steps follow.
//! - [`target`], [`record`], [`device`]: what the registry tells of a device.
//! - [`relay`], [`turn`]: how a notification is classified, and the order of
//!   a turn of the relay bridge.
//! - [`registry`], [`user_nodes`], [`settings`]: the changes to the registry
//!   and to the settings of the server, both JSON documents.
//! - [`interfaces`], [`paths`]: the list of network interfaces and the
//!   places of the files.
//! - [`json`], [`text`], [`decimal`], [`lookup`]: what the others are built
//!   on.
//!
//! Sockets, files and the window stay with the caller, which performs the
//! actions that these modules ask for and reports back what happened.

pub mod decimal;
pub mod device;
pub mod frame;
pub mod handshake;
pub mod interfaces;
pub mod json;
pub mod lookup;
pub mod paths;
pub mod probe;
pub mod record;
pub mod registry;
pub mod relay;
pub mod settings;
pub mod target;
pub mod text;
pub mod turn;
pub mod user_nodes;
