//! The running build's version and target triple, carried as an explicit
//! value instead of process-wide globals: the caller constructs one at
//! startup and hands it to whatever needs it.

use vstd::prelude::*;

verus! {

/// The build's version string and target triple.
#[derive(Debug, Clone)]
pub struct VersionInfo {
    pub version: String,
    pub triple: String,
}

/// Record the build's version and target triple.
pub fn assign_version_info(version: String, triple: String) -> (r: VersionInfo)
    ensures
        r.version == version,
        r.triple == triple,
{
    VersionInfo { version, triple }
}

/// The recorded version string.
pub fn arb_version(info: &VersionInfo) -> (r: &String)
    ensures
        r@ == info.version@,
{
    &info.version
}

/// The recorded target triple.
pub fn arb_target_triple(info: &VersionInfo) -> (r: &String)
    ensures
        r@ == info.triple@,
{
    &info.triple
}

/// The recorded version string, under the name older callers use.
pub fn wezterm_version(info: &VersionInfo) -> (r: &String)
    ensures
        r@ == info.version@,
{
    arb_version(info)
}

/// The recorded target triple, under the name older callers use.
pub fn wezterm_target_triple(info: &VersionInfo) -> (r: &String)
    ensures
        r@ == info.triple@,
{
    arb_target_triple(info)
}

} // verus!
