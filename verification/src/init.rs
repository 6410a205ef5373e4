//! The `init` command's decisions: where the shell wrapper lives, how a
//! path is escaped for a double-quoted shell string, which binary the
//! wrapper should prefer, and where the setup script may be found.
//! Writing files and running the script happen outside this crate.

use vstd::prelude::*;
use crate::strutil::{chars_of, concat_str, string_from_chars, after_last_char, after_last_str,
    seq_eq_ic, eq_ignore_case, opt_str_view};

verus! {

/// The init command's arguments: `update_only` refreshes shell integration
/// without interactive prompts.
#[derive(Debug, Clone, Default)]
pub struct InitCommand {
    pub update_only: bool,
}

/// How one character reads inside a double-quoted shell string: the four
/// characters the shell would interpret get a backslash.
pub open spec fn esc_char(c: char) -> Seq<char> {
    if c == '\\' {
        seq!['\\', '\\']
    } else if c == '"' {
        seq!['\\', '"']
    } else if c == '$' {
        seq!['\\', '$']
    } else if c == '`' {
        seq!['\\', '`']
    } else {
        seq![c]
    }
}

/// The whole string escaped character by character.
pub open spec fn escape_seq(s: Seq<char>) -> Seq<char>
    decreases s.len(),
{
    if s.len() == 0 {
        Seq::empty()
    } else {
        esc_char(s[0]) + escape_seq(s.drop_first())
    }
}

/// Escape a value for inclusion in a double-quoted shell string: `\`, `"`,
/// `$` and `` ` `` get a preceding backslash; everything else is kept.
pub fn escape_for_double_quotes(value: &str) -> (r: String)
    ensures
        r@ == escape_seq(value@),
{
    let cs = chars_of(value);
    let n = cs.len();
    let mut out: Vec<char> = Vec::new();
    let mut i: usize = 0;
    proof {
        assert(value@.skip(0) =~= value@);
        assert(out@ + escape_seq(value@) =~= escape_seq(value@));
    }
    while i < n
        invariant
            i <= n,
            n == cs@.len(),
            cs@ == value@,
            escape_seq(value@) == out@ + escape_seq(value@.skip(i as int)),
        decreases n - i,
    {
        let c = cs[i];
        let ghost old_out = out@;
        if c == '\\' {
            out.push('\\');
            out.push('\\');
        } else if c == '"' {
            out.push('\\');
            out.push('"');
        } else if c == '$' {
            out.push('\\');
            out.push('$');
        } else if c == '`' {
            out.push('\\');
            out.push('`');
        } else {
            out.push(c);
        }
        proof {
            let rest = value@.skip(i as int);
            assert(rest[0] == value@[i as int]);
            assert(rest.drop_first() =~= value@.skip(i as int + 1));
            assert(escape_seq(rest) == esc_char(value@[i as int]) + escape_seq(
                value@.skip(i as int + 1),
            ));
            assert(out@ =~= old_out + esc_char(value@[i as int]));
            assert(old_out + (esc_char(value@[i as int]) + escape_seq(value@.skip(i as int + 1)))
                =~= out@ + escape_seq(value@.skip(i as int + 1)));
        }
        i = i + 1;
    }
    proof {
        assert(escape_seq(value@.skip(n as int)) =~= Seq::<char>::empty());
        assert(out@ + escape_seq(value@.skip(n as int)) =~= out@);
    }
    string_from_chars(&out)
}

/// Where the `arb` shell wrapper is installed:
/// `<home>/.config/arb/zsh/bin/arb`.
pub fn wrapper_path(home: &str) -> (r: String)
    ensures
        r@ == home@ + "/.config/arb/zsh/bin/arb"@,
{
    concat_str(home, "/.config/arb/zsh/bin/arb")
}

/// The binary the wrapper should prefer: an existing `ARB_BIN` override
/// first; then the running executable when it is named `arb` (ignoring
/// ASCII case) and exists; then the first existing well-known install
/// location; `None` when none of those exist.
pub fn resolve_preferred_arb_bin(
    env_bin: &Option<String>,
    env_bin_exists: bool,
    exe_path: &Option<String>,
    exe_exists: bool,
    global_bin_exists: bool,
    user_bin_exists: bool,
    home: &str,
) -> (r: Option<String>)
    ensures
        ({
            let env_wins = (*env_bin) is Some && env_bin_exists;
            let exe_wins = !env_wins && (*exe_path) is Some && seq_eq_ic(
                after_last_char((*exe_path)->Some_0@, '/'),
                "arb"@,
            ) && exe_exists;
            &&& (env_wins ==> (r matches Some(p) && p@ == env_bin->Some_0@))
            &&& (!env_wins && exe_wins ==> (r matches Some(p) && p@ == exe_path->Some_0@))
            &&& (!env_wins && !exe_wins && global_bin_exists ==> (r matches Some(p) && p@
                == "/Applications/Arb.app/Contents/MacOS/arb"@))
            &&& (!env_wins && !exe_wins && !global_bin_exists && user_bin_exists ==> (r matches Some(
                p,
            ) && p@ == home@ + "/Applications/Arb.app/Contents/MacOS/arb"@))
            &&& (!env_wins && !exe_wins && !global_bin_exists && !user_bin_exists ==> r is None)
        }),
{
    match env_bin {
        Some(p) => {
            if env_bin_exists {
                return Some(p.clone());
            }
        },
        None => {},
    }
    match exe_path {
        Some(e) => {
            let name = after_last_str(e.as_str(), '/');
            if eq_ignore_case(name.as_str(), "arb") && exe_exists {
                return Some(e.clone());
            }
        },
        None => {},
    }
    if global_bin_exists {
        return Some("/Applications/Arb.app/Contents/MacOS/arb".to_owned());
    }
    if user_bin_exists {
        return Some(concat_str(home, "/Applications/Arb.app/Contents/MacOS/arb"));
    }
    None
}

/// The candidate paths of the setup script, in search order.
pub open spec fn spec_setup_script_candidates(
    cwd: Option<Seq<char>>,
    exe_contents_dir: Option<Seq<char>>,
    home: Seq<char>,
) -> Seq<Seq<char>> {
    let tail = seq![
        "/Applications/Arb.app/Contents/Resources/setup_zsh.sh"@,
        home + "/Applications/Arb.app/Contents/Resources/setup_zsh.sh"@,
    ];
    let with_exe: Seq<Seq<char>> = if exe_contents_dir is Some {
        seq![exe_contents_dir->Some_0 + "/Resources/setup_zsh.sh"@] + tail
    } else {
        tail
    };
    if cwd is Some {
        seq![cwd->Some_0 + "/assets/shell-integration/setup_zsh.sh"@] + with_exe
    } else {
        with_exe
    }
}

/// Where the setup script may be found, in the order it is searched: under
/// the working directory (when known), beside the running executable's
/// bundle resources (when known), then the two well-known install
/// locations.
pub fn setup_script_candidates(
    cwd: &Option<String>,
    exe_contents_dir: &Option<String>,
    home: &str,
) -> (r: Vec<String>)
    ensures
        r.deep_view() == spec_setup_script_candidates(
            opt_str_view(*cwd),
            opt_str_view(*exe_contents_dir),
            home@,
        ),
{
    let mut r: Vec<String> = Vec::new();
    match cwd {
        Some(c) => {
            r.push(concat_str(c.as_str(), "/assets/shell-integration/setup_zsh.sh"));
        },
        None => {},
    }
    match exe_contents_dir {
        Some(d) => {
            r.push(concat_str(d.as_str(), "/Resources/setup_zsh.sh"));
        },
        None => {},
    }
    r.push("/Applications/Arb.app/Contents/Resources/setup_zsh.sh".to_owned());
    r.push(concat_str(home, "/Applications/Arb.app/Contents/Resources/setup_zsh.sh"));
    proof {
        assert(r.deep_view() =~= spec_setup_script_candidates(
            opt_str_view(*cwd),
            opt_str_view(*exe_contents_dir),
            home@,
        ));
    }
    r
}

} // verus!
