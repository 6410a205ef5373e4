//! Local process information.  No platform implementation is vendored in
//! this build, so every probe reports that nothing was found; callers must
//! treat the answers as optional.

use vstd::prelude::*;

verus! {

/// A process in the local process tree.
#[derive(Debug, Clone)]
pub struct LocalProcessInfo {
    pub pid: u32,
}

impl LocalProcessInfo {
    /// The process tree rooted at `pid`; `None` on builds without a
    /// platform implementation.
    pub fn with_root_pid(pid: u32) -> (r: Option<LocalProcessInfo>)
        ensures
            r is None,
    {
        None
    }

    /// The working directory of `pid`; `None` on builds without a platform
    /// implementation.
    pub fn current_working_dir(pid: u32) -> (r: Option<String>)
        ensures
            r is None,
    {
        None
    }

    /// The executable path of `pid`; `None` on builds without a platform
    /// implementation.
    pub fn executable_path(pid: u32) -> (r: Option<String>)
        ensures
            r is None,
    {
        None
    }
}

} // verus!
