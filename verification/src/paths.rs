//! Well-known filesystem locations, computed from the caller's home
//! directory and environment values.  Paths are handled as plain strings;
//! reading the environment itself happens outside this crate.

use vstd::prelude::*;
use crate::strutil::concat_str;

verus! {

/// The default configuration directory, `<home>/.config/arb`.
pub fn config_home(home: &str) -> (r: String)
    ensures
        r@ == home@ + "/.config/arb"@,
{
    concat_str(home, "/.config/arb")
}

/// The path of `.zshrc`: under `ZDOTDIR` when that is set, else under the
/// home directory.
pub fn zshrc_path(home: &str, zdotdir: &Option<String>) -> (r: String)
    ensures
        (*zdotdir) matches Some(z) ==> r@ == z@ + "/.zshrc"@,
        (*zdotdir) is None ==> r@ == home@ + "/.zshrc"@,
{
    match zdotdir {
        Some(z) => concat_str(z.as_str(), "/.zshrc"),
        None => concat_str(home, "/.zshrc"),
    }
}

} // verus!
