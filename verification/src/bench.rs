//! The shell-benchmark command's pure parts: the table of known terminal
//! applications and the shape of a detection result.  Probing the
//! filesystem for them, timing shell startups and printing reports happen
//! outside this crate.

use vstd::prelude::*;
use crate::strutil::{after_last_char, after_last_str};

verus! {

/// The benchmark command's arguments: emit JSON, a Markdown table, or the
/// default ANSI report.
#[derive(Debug, Clone, Default)]
pub struct BenchCommand {
    pub json: bool,
    pub markdown: bool,
}

/// Whether one known terminal application is installed.
#[derive(Debug, Clone)]
pub struct TerminalDetection {
    pub name: String,
    pub path: String,
    pub found: bool,
}

/// The name of the `i`-th known terminal application.
pub open spec fn spec_terminal_name(i: int) -> Seq<char> {
    if i == 0 {
        "iTerm2"@
    } else if i == 1 {
        "Ghostty"@
    } else if i == 2 {
        "Kitty"@
    } else if i == 3 {
        "Alacritty"@
    } else {
        "Warp"@
    }
}

/// The install path of the `i`-th known terminal application.
pub open spec fn spec_terminal_path(i: int) -> Seq<char> {
    if i == 0 {
        "/Applications/iTerm.app"@
    } else if i == 1 {
        "/Applications/Ghostty.app"@
    } else if i == 2 {
        "/Applications/kitty.app"@
    } else if i == 3 {
        "/Applications/Alacritty.app"@
    } else {
        "/Applications/Warp.app"@
    }
}

/// The detection results for the five known terminals, given whether each
/// one's install path exists.
pub fn detect_terminals(found: &Vec<bool>) -> (r: Vec<TerminalDetection>)
    requires
        found@.len() == 5,
    ensures
        r@.len() == 5,
        forall|i: int|
            0 <= i < 5 ==> (#[trigger] r@[i]).name@ == spec_terminal_name(i) && r@[i].path@
                == spec_terminal_path(i) && r@[i].found == found@[i],
{
    let mut r: Vec<TerminalDetection> = Vec::new();
    r.push(
        TerminalDetection {
            name: "iTerm2".to_owned(),
            path: "/Applications/iTerm.app".to_owned(),
            found: found[0],
        },
    );
    r.push(
        TerminalDetection {
            name: "Ghostty".to_owned(),
            path: "/Applications/Ghostty.app".to_owned(),
            found: found[1],
        },
    );
    r.push(
        TerminalDetection {
            name: "Kitty".to_owned(),
            path: "/Applications/kitty.app".to_owned(),
            found: found[2],
        },
    );
    r.push(
        TerminalDetection {
            name: "Alacritty".to_owned(),
            path: "/Applications/Alacritty.app".to_owned(),
            found: found[3],
        },
    );
    r.push(
        TerminalDetection {
            name: "Warp".to_owned(),
            path: "/Applications/Warp.app".to_owned(),
            found: found[4],
        },
    );
    r
}

/// The shell's name as read from the `SHELL` environment value: the text
/// after the last `/`, or `zsh` when the value is unset or yields nothing.
pub fn shell_name_from_env(shell_var: &Option<String>) -> (r: String)
    ensures
        (*shell_var) matches Some(s) ==> {
            &&& (after_last_char(s@, '/').len() > 0 ==> r@ == after_last_char(s@, '/'))
            &&& (after_last_char(s@, '/').len() == 0 ==> r@ == "zsh"@)
        },
        (*shell_var) is None ==> r@ == "zsh"@,
{
    match shell_var {
        Some(s) => {
            let name = after_last_str(s.as_str(), '/');
            if name.as_str().unicode_len() > 0 {
                name
            } else {
                "zsh".to_owned()
            }
        },
        None => "zsh".to_owned(),
    }
}

} // verus!
