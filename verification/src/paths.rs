//! Where the companion keeps its files.
//!
//! The files live in one directory below a base directory of the user: the
//! configuration directory on Windows, the home directory elsewhere.

use vstd::prelude::*;

verus! {

/// The base directory below which the files are kept.
#[derive(Clone, Copy, Debug, PartialEq, Eq, Structural)]
pub enum BaseDirectory {
    /// The user's configuration directory.
    Config,
    /// The user's home directory.
    Home,
}

/// The name of the file that holds the device registry.
pub open spec fn registry_file_name() -> Seq<char> {
    "clients.json"@
}

/// The name of the file that holds the settings of the server.
pub open spec fn settings_file_name() -> Seq<char> {
    "server.json"@
}

/// The base directory on a platform.
pub open spec fn spec_base_directory(windows: bool) -> BaseDirectory {
    if windows {
        BaseDirectory::Config
    } else {
        BaseDirectory::Home
    }
}

/// The name of the directory of the files, below the base directory.
pub open spec fn spec_directory_name(windows: bool) -> Seq<char> {
    if windows {
        "Aerion OPC-UA Server"@
    } else {
        ".aerionuaserver"@
    }
}

/// The base directory on a platform.
pub fn base_directory(windows: bool) -> (r: BaseDirectory)
    ensures
        r == spec_base_directory(windows),
{
    if windows {
        BaseDirectory::Config
    } else {
        BaseDirectory::Home
    }
}

/// The name of the directory of the files, below the base directory.  The
/// log files are written to this directory too.
pub fn directory_name(windows: bool) -> (r: &'static str)
    ensures
        r@ == spec_directory_name(windows),
{
    if windows {
        "Aerion OPC-UA Server"
    } else {
        ".aerionuaserver"
    }
}

/// The name of the file that holds the device registry.
pub fn registry_file() -> (r: &'static str)
    ensures
        r@ == registry_file_name(),
{
    "clients.json"
}

/// The name of the file that holds the settings of the server.
pub fn settings_file() -> (r: &'static str)
    ensures
        r@ == settings_file_name(),
{
    "server.json"
}

} // verus!
