//! Auxiliary tooling for the Arb terminal application: version comparison,
//! self-update staging with checksum verification and cleanup, and the pure
//! decision logic behind the diagnostic and setup commands.
//!
//! All filesystem, network and process work lives outside this crate; the
//! functions here operate on plain values handed in by their callers, and
//! their behaviour is pinned down by their contracts.

pub mod bench;
pub mod checksum;
pub mod config_cmd;
pub mod doctor;
pub mod init;
pub mod lease;
pub mod notify;
pub mod paths;
pub mod procinfo;
pub mod resize;
pub mod strutil;
pub mod update;
pub mod version;
pub mod version_info;
