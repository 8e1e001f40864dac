//! Host integration for the hazelnut daemon: registration for automatic
//! start, the uptime of a process, how the program was installed and how it
//! is updated, the check for a newer release, and the expansion of paths.
//!
//! The library decides and computes; it touches neither files nor
//! processes nor the network. Its callers probe the host, hand over what
//! they found as plain values, and carry out the steps it returns.

pub mod autostart;
pub mod json;
pub mod paths;
pub mod text;
pub mod update;
pub mod uptime;
pub mod version;

pub use paths::expand_path;
pub use update::{detect_package_manager, run_update, PackageManager};
pub use uptime::{format_uptime, read_process_uptime};
pub use version::{check_for_updates_crates_io, version_is_newer, VersionCheck, VERSION};
