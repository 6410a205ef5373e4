//! The `doctor` command's checks: each one turns what a filesystem or
//! process probe reported into a pass/warn/fail outcome with a message and
//! an optional remediation hint.  The probes themselves, and printing the
//! report, happen outside this crate.

use vstd::prelude::*;
use crate::strutil::{contains_seq, contains_str, concat_str, trim_ws, trim_str, opt_str_view};

verus! {

/// The doctor command's arguments (it takes none).
#[derive(Debug, Clone, Default)]
pub struct DoctorCommand {}

/// How a check came out.
#[derive(Debug, Clone, Copy, PartialEq, Eq, Structural)]
pub enum CheckStatus {
    Pass,
    Fail,
    Warn,
}

/// One check's outcome: its name, outcome, message, and an optional hint
/// on how to fix it.
#[derive(Debug, Clone)]
pub struct CheckResult {
    pub name: String,
    pub status: CheckStatus,
    pub message: String,
    pub fix: Option<String>,
}

/// The mathematical shadow of a `CheckResult`.
pub struct SpecCheckResult {
    pub name: Seq<char>,
    pub status: CheckStatus,
    pub message: Seq<char>,
    pub fix: Option<Seq<char>>,
}

impl View for CheckResult {
    type V = SpecCheckResult;

    open spec fn view(&self) -> SpecCheckResult {
        SpecCheckResult {
            name: self.name@,
            status: self.status,
            message: self.message@,
            fix: opt_str_view(self.fix),
        }
    }
}

/// The shell-integration check's outcome, from what the probes saw.
pub open spec fn spec_check_shell_integration(
    arb_zsh: Seq<char>,
    arb_zsh_exists: bool,
    zshrc: Seq<char>,
    zshrc_exists: bool,
    content: Option<Seq<char>>,
) -> SpecCheckResult {
    if !arb_zsh_exists {
        SpecCheckResult {
            name: "Shell integration"@,
            status: CheckStatus::Fail,
            message: arb_zsh + " not found"@,
            fix: Some("Run `arb init` to install shell integration"@),
        }
    } else if !zshrc_exists {
        SpecCheckResult {
            name: "Shell integration"@,
            status: CheckStatus::Warn,
            message: arb_zsh + " exists but "@ + zshrc + " not found"@,
            fix: Some("Create "@ + zshrc + " and source arb.zsh from it"@),
        }
    } else {
        match content {
            Some(c) => if contains_seq(c, "arb/zsh/arb.zsh"@) {
                SpecCheckResult {
                    name: "Shell integration"@,
                    status: CheckStatus::Pass,
                    message: "arb.zsh exists and is sourced in .zshrc"@,
                    fix: None,
                }
            } else {
                SpecCheckResult {
                    name: "Shell integration"@,
                    status: CheckStatus::Fail,
                    message: arb_zsh + " exists but not sourced in "@ + zshrc,
                    fix: Some("Run `arb init` to restore shell integration"@),
                }
            },
            None => SpecCheckResult {
                name: "Shell integration"@,
                status: CheckStatus::Warn,
                message: "Could not read "@ + zshrc,
                fix: Some("Check file permissions on your .zshrc"@),
            },
        }
    }
}

/// Check shell integration: `arb.zsh` must exist and be sourced from the
/// user's `.zshrc`.
pub fn check_shell_integration(
    arb_zsh_path: &str,
    arb_zsh_exists: bool,
    zshrc_path: &str,
    zshrc_exists: bool,
    zshrc_content: &Option<String>,
) -> (r: CheckResult)
    ensures
        r@ == spec_check_shell_integration(
            arb_zsh_path@,
            arb_zsh_exists,
            zshrc_path@,
            zshrc_exists,
            opt_str_view(*zshrc_content),
        ),
{
    if !arb_zsh_exists {
        return CheckResult {
            name: "Shell integration".to_owned(),
            status: CheckStatus::Fail,
            message: concat_str(arb_zsh_path, " not found"),
            fix: Some("Run `arb init` to install shell integration".to_owned()),
        };
    }
    if !zshrc_exists {
        let head = concat_str(arb_zsh_path, " exists but ");
        let mid = concat_str(head.as_str(), zshrc_path);
        return CheckResult {
            name: "Shell integration".to_owned(),
            status: CheckStatus::Warn,
            message: concat_str(mid.as_str(), " not found"),
            fix: Some(
                {
                    let f = concat_str("Create ", zshrc_path);
                    concat_str(f.as_str(), " and source arb.zsh from it")
                },
            ),
        };
    }
    match zshrc_content {
        Some(c) => {
            if contains_str(c.as_str(), "arb/zsh/arb.zsh") {
                CheckResult {
                    name: "Shell integration".to_owned(),
                    status: CheckStatus::Pass,
                    message: "arb.zsh exists and is sourced in .zshrc".to_owned(),
                    fix: None,
                }
            } else {
                let head = concat_str(arb_zsh_path, " exists but not sourced in ");
                CheckResult {
                    name: "Shell integration".to_owned(),
                    status: CheckStatus::Fail,
                    message: concat_str(head.as_str(), zshrc_path),
                    fix: Some("Run `arb init` to restore shell integration".to_owned()),
                }
            }
        },
        None => CheckResult {
            name: "Shell integration".to_owned(),
            status: CheckStatus::Warn,
            message: concat_str("Could not read ", zshrc_path),
            fix: Some("Check file permissions on your .zshrc".to_owned()),
        },
    }
}

/// The starship check's outcome, from what the probes saw.
pub open spec fn spec_check_starship(
    starship: Seq<char>,
    exists: bool,
    mode: Option<u32>,
) -> SpecCheckResult {
    if !exists {
        SpecCheckResult {
            name: "Starship"@,
            status: CheckStatus::Fail,
            message: starship + " not found"@,
            fix: Some("Run `arb init` to install the bundled starship binary"@),
        }
    } else {
        match mode {
            Some(m) => if m & 0o111 != 0 {
                SpecCheckResult {
                    name: "Starship"@,
                    status: CheckStatus::Pass,
                    message: "Bundled starship binary is present and executable"@,
                    fix: None,
                }
            } else {
                SpecCheckResult {
                    name: "Starship"@,
                    status: CheckStatus::Fail,
                    message: starship + " exists but is not executable"@,
                    fix: Some("Run: chmod +x "@ + starship),
                }
            },
            None => SpecCheckResult {
                name: "Starship"@,
                status: CheckStatus::Warn,
                message: "Could not read metadata for "@ + starship,
                fix: None,
            },
        }
    }
}

/// Check the bundled starship binary: it must exist and carry an execute
/// permission bit (`mode` is the file's permission bits, when readable).
pub fn check_starship(starship_path: &str, exists: bool, mode: Option<u32>) -> (r: CheckResult)
    ensures
        r@ == spec_check_starship(starship_path@, exists, mode),
{
    if !exists {
        return CheckResult {
            name: "Starship".to_owned(),
            status: CheckStatus::Fail,
            message: concat_str(starship_path, " not found"),
            fix: Some("Run `arb init` to install the bundled starship binary".to_owned()),
        };
    }
    match mode {
        Some(m) => {
            if m & 0o111 != 0 {
                CheckResult {
                    name: "Starship".to_owned(),
                    status: CheckStatus::Pass,
                    message: "Bundled starship binary is present and executable".to_owned(),
                    fix: None,
                }
            } else {
                CheckResult {
                    name: "Starship".to_owned(),
                    status: CheckStatus::Fail,
                    message: concat_str(starship_path, " exists but is not executable"),
                    fix: Some(concat_str("Run: chmod +x ", starship_path)),
                }
            }
        },
        None => CheckResult {
            name: "Starship".to_owned(),
            status: CheckStatus::Warn,
            message: concat_str("Could not read metadata for ", starship_path),
            fix: None,
        },
    }
}

/// The delta check's outcome: `delta` in `PATH`, and git's `core.pager`
/// (trimmed) set to `delta`.
pub open spec fn spec_check_delta(in_path: bool, git_pager: Option<Seq<char>>) -> SpecCheckResult {
    let configured = match git_pager {
        Some(p) => trim_ws(p) == "delta"@,
        None => false,
    };
    if in_path && configured {
        SpecCheckResult {
            name: "Delta"@,
            status: CheckStatus::Pass,
            message: "delta is in PATH and configured as git pager"@,
            fix: None,
        }
    } else if in_path {
        SpecCheckResult {
            name: "Delta"@,
            status: CheckStatus::Warn,
            message: "delta is in PATH but not set as git core.pager"@,
            fix: Some("Run `arb init` to configure delta as git pager"@),
        }
    } else {
        SpecCheckResult {
            name: "Delta"@,
            status: CheckStatus::Warn,
            message: "delta not found in PATH"@,
            fix: Some("Run `arb init` to install delta via shell integration"@),
        }
    }
}

/// Check the delta pager: found in `PATH`, and configured as git's
/// `core.pager` (`git_pager` is what `git config` printed, when it
/// succeeded).
pub fn check_delta(in_path: bool, git_pager: &Option<String>) -> (r: CheckResult)
    ensures
        r@ == spec_check_delta(in_path, opt_str_view(*git_pager)),
{
    let configured = match git_pager {
        Some(p) => {
            let t = trim_str(p.as_str());
            crate::strutil::str_eq_str(t.as_str(), "delta")
        },
        None => false,
    };
    if in_path && configured {
        CheckResult {
            name: "Delta".to_owned(),
            status: CheckStatus::Pass,
            message: "delta is in PATH and configured as git pager".to_owned(),
            fix: None,
        }
    } else if in_path {
        CheckResult {
            name: "Delta".to_owned(),
            status: CheckStatus::Warn,
            message: "delta is in PATH but not set as git core.pager".to_owned(),
            fix: Some("Run `arb init` to configure delta as git pager".to_owned()),
        }
    } else {
        CheckResult {
            name: "Delta".to_owned(),
            status: CheckStatus::Warn,
            message: "delta not found in PATH".to_owned(),
            fix: Some("Run `arb init` to install delta via shell integration".to_owned()),
        }
    }
}

/// What probing the user configuration file reported.
#[derive(Debug, Clone)]
pub enum UserConfigProbe {
    /// The file does not exist.
    Missing,
    /// The file exists but could not be read.
    Unreadable { error: String },
    /// No Lua context could be created to parse it.
    NoLuaContext { error: String },
    /// The file failed to parse.
    ParseFailed { error: String },
    /// The file parsed; `has_return` says whether it contains `return`.
    Parsed { has_return: bool },
}

/// The user-config check's outcome, from what the probe saw.
pub open spec fn spec_check_user_config(path: Seq<char>, probe: UserConfigProbe)
    -> SpecCheckResult {
    match probe {
        UserConfigProbe::Missing => SpecCheckResult {
            name: "User config"@,
            status: CheckStatus::Warn,
            message: path + " not found"@,
            fix: Some("Run `arb config` to create a default configuration"@),
        },
        UserConfigProbe::Unreadable { error } => SpecCheckResult {
            name: "User config"@,
            status: CheckStatus::Fail,
            message: "Could not read "@ + path + ": "@ + error@,
            fix: Some("Check file permissions on arb.lua"@),
        },
        UserConfigProbe::NoLuaContext { error } => SpecCheckResult {
            name: "User config"@,
            status: CheckStatus::Warn,
            message: "Could not create Lua context: "@ + error@,
            fix: None,
        },
        UserConfigProbe::ParseFailed { error } => SpecCheckResult {
            name: "User config"@,
            status: CheckStatus::Fail,
            message: path + " failed to parse: "@ + error@,
            fix: Some("Fix Lua syntax errors (open with `arb config`)"@),
        },
        UserConfigProbe::Parsed { has_return } => if has_return {
            SpecCheckResult {
                name: "User config"@,
                status: CheckStatus::Pass,
                message: path + " exists and parses"@,
                fix: None,
            }
        } else {
            SpecCheckResult {
                name: "User config"@,
                status: CheckStatus::Warn,
                message: path + " parses but may not return a config"@,
                fix: Some("Ensure arb.lua ends with `return config`"@),
            }
        },
    }
}

/// Check the user configuration: it should exist, parse as Lua, and end by
/// returning a config table.
pub fn check_user_config(config_path: &str, probe: &UserConfigProbe) -> (r: CheckResult)
    ensures
        r@ == spec_check_user_config(config_path@, *probe),
{
    match probe {
        UserConfigProbe::Missing => CheckResult {
            name: "User config".to_owned(),
            status: CheckStatus::Warn,
            message: concat_str(config_path, " not found"),
            fix: Some("Run `arb config` to create a default configuration".to_owned()),
        },
        UserConfigProbe::Unreadable { error } => {
            let head = concat_str("Could not read ", config_path);
            let mid = concat_str(head.as_str(), ": ");
            CheckResult {
                name: "User config".to_owned(),
                status: CheckStatus::Fail,
                message: concat_str(mid.as_str(), error.as_str()),
                fix: Some("Check file permissions on arb.lua".to_owned()),
            }
        },
        UserConfigProbe::NoLuaContext { error } => CheckResult {
            name: "User config".to_owned(),
            status: CheckStatus::Warn,
            message: concat_str("Could not create Lua context: ", error.as_str()),
            fix: None,
        },
        UserConfigProbe::ParseFailed { error } => {
            let head = concat_str(config_path, " failed to parse: ");
            CheckResult {
                name: "User config".to_owned(),
                status: CheckStatus::Fail,
                message: concat_str(head.as_str(), error.as_str()),
                fix: Some("Fix Lua syntax errors (open with `arb config`)".to_owned()),
            }
        },
        UserConfigProbe::Parsed { has_return } => {
            if *has_return {
                CheckResult {
                    name: "User config".to_owned(),
                    status: CheckStatus::Pass,
                    message: concat_str(config_path, " exists and parses"),
                    fix: None,
                }
            } else {
                CheckResult {
                    name: "User config".to_owned(),
                    status: CheckStatus::Warn,
                    message: concat_str(config_path, " parses but may not return a config"),
                    fix: Some("Ensure arb.lua ends with `return config`".to_owned()),
                }
            }
        },
    }
}

/// The app-bundle check's outcome: found globally, found under the user's
/// home, or missing.
pub open spec fn spec_check_app_bundle(
    home: Seq<char>,
    global_exists: bool,
    user_exists: bool,
) -> SpecCheckResult {
    if global_exists {
        SpecCheckResult {
            name: "App bundle"@,
            status: CheckStatus::Pass,
            message: "Found /Applications/Arb.app"@,
            fix: None,
        }
    } else if user_exists {
        SpecCheckResult {
            name: "App bundle"@,
            status: CheckStatus::Pass,
            message: "Found "@ + home + "/Applications/Arb.app"@,
            fix: None,
        }
    } else {
        SpecCheckResult {
            name: "App bundle"@,
            status: CheckStatus::Fail,
            message: "Arb.app not found in /Applications or ~/Applications"@,
            fix: Some("Install Arb.app to /Applications"@),
        }
    }
}

/// Check for the installed application bundle in `/Applications` and
/// `<home>/Applications`.
pub fn check_app_bundle(home: &str, global_exists: bool, user_exists: bool) -> (r: CheckResult)
    ensures
        r@ == spec_check_app_bundle(home@, global_exists, user_exists),
{
    if global_exists {
        CheckResult {
            name: "App bundle".to_owned(),
            status: CheckStatus::Pass,
            message: "Found /Applications/Arb.app".to_owned(),
            fix: None,
        }
    } else if user_exists {
        let head = concat_str("Found ", home);
        CheckResult {
            name: "App bundle".to_owned(),
            status: CheckStatus::Pass,
            message: concat_str(head.as_str(), "/Applications/Arb.app"),
            fix: None,
        }
    } else {
        CheckResult {
            name: "App bundle".to_owned(),
            status: CheckStatus::Fail,
            message: "Arb.app not found in /Applications or ~/Applications".to_owned(),
            fix: Some("Install Arb.app to /Applications".to_owned()),
        }
    }
}

/// The version check's outcome: always informational.
pub open spec fn spec_check_version(arb_ver: Seq<char>, config_ver: Option<Seq<char>>)
    -> SpecCheckResult {
    let cv = match config_ver {
        Some(v) => v,
        None => "not found"@,
    };
    SpecCheckResult {
        name: "Version"@,
        status: CheckStatus::Pass,
        message: "arb "@ + arb_ver + ", config version: "@ + cv,
        fix: None,
    }
}

/// Report the running version and the installed config version
/// (`config_ver` is the trimmed content of the config-version file, when
/// readable).
pub fn check_version(arb_ver: &str, config_ver: &Option<String>) -> (r: CheckResult)
    ensures
        r@ == spec_check_version(arb_ver@, opt_str_view(*config_ver)),
{
    let head = concat_str("arb ", arb_ver);
    let mid = concat_str(head.as_str(), ", config version: ");
    let message = match config_ver {
        Some(v) => concat_str(mid.as_str(), v.as_str()),
        None => concat_str(mid.as_str(), "not found"),
    };
    CheckResult { name: "Version".to_owned(), status: CheckStatus::Pass, message, fix: None }
}

/// The name of the `i`-th expected zsh plugin.
pub open spec fn spec_zsh_plugin_name(i: int) -> Seq<char> {
    if i == 0 {
        "zsh-z"@
    } else if i == 1 {
        "zsh-autosuggestions"@
    } else if i == 2 {
        "zsh-syntax-highlighting"@
    } else {
        "zsh-completions"@
    }
}

/// One zsh plugin's outcome: installed, or missing under the plugins
/// directory.
pub open spec fn spec_zsh_plugin_result(plugins_dir: Seq<char>, i: int, found: bool)
    -> SpecCheckResult {
    if found {
        SpecCheckResult {
            name: "Zsh plugin: "@ + spec_zsh_plugin_name(i),
            status: CheckStatus::Pass,
            message: "installed"@,
            fix: None,
        }
    } else {
        SpecCheckResult {
            name: "Zsh plugin: "@ + spec_zsh_plugin_name(i),
            status: CheckStatus::Warn,
            message: plugins_dir + "/"@ + spec_zsh_plugin_name(i) + " not found"@,
            fix: Some("Run `arb init` to install zsh plugins"@),
        }
    }
}

fn zsh_plugin_result(plugins_dir: &str, plugin: &str, i: usize, found: bool) -> (r: CheckResult)
    requires
        i < 4,
        plugin@ == spec_zsh_plugin_name(i as int),
    ensures
        r@ == spec_zsh_plugin_result(plugins_dir@, i as int, found),
{
    let name = concat_str("Zsh plugin: ", plugin);
    if found {
        CheckResult { name, status: CheckStatus::Pass, message: "installed".to_owned(), fix: None }
    } else {
        let head = concat_str(plugins_dir, "/");
        let mid = concat_str(head.as_str(), plugin);
        CheckResult {
            name,
            status: CheckStatus::Warn,
            message: concat_str(mid.as_str(), " not found"),
            fix: Some("Run `arb init` to install zsh plugins".to_owned()),
        }
    }
}

/// Check the four expected zsh plugins under the plugins directory.
pub fn check_zsh_plugins(plugins_dir: &str, found: &Vec<bool>) -> (r: Vec<CheckResult>)
    requires
        found@.len() == 4,
    ensures
        r@.len() == 4,
        forall|i: int|
            0 <= i < 4 ==> (#[trigger] r@[i])@ == spec_zsh_plugin_result(
                plugins_dir@,
                i,
                found@[i],
            ),
{
    let mut r: Vec<CheckResult> = Vec::new();
    r.push(zsh_plugin_result(plugins_dir, "zsh-z", 0, found[0]));
    r.push(zsh_plugin_result(plugins_dir, "zsh-autosuggestions", 1, found[1]));
    r.push(zsh_plugin_result(plugins_dir, "zsh-syntax-highlighting", 2, found[2]));
    r.push(zsh_plugin_result(plugins_dir, "zsh-completions", 3, found[3]));
    r
}

/// Everything the doctor's checks need to know from the environment.
#[derive(Debug, Clone)]
pub struct DoctorProbes {
    pub arb_zsh_path: String,
    pub arb_zsh_exists: bool,
    pub zshrc_path: String,
    pub zshrc_exists: bool,
    pub zshrc_content: Option<String>,
    pub starship_path: String,
    pub starship_exists: bool,
    pub starship_mode: Option<u32>,
    pub delta_in_path: bool,
    pub git_pager: Option<String>,
    pub config_path: String,
    pub config_probe: UserConfigProbe,
    pub home: String,
    pub global_app_exists: bool,
    pub user_app_exists: bool,
    pub arb_version: String,
    pub config_version: Option<String>,
    pub plugins_dir: String,
    pub plugins_found: Vec<bool>,
}

/// Run every check, in the order the report prints them: shell
/// integration, starship, delta, user config, app bundle, version, and the
/// four zsh plugins — ten results.
pub fn run_all_checks(probes: &DoctorProbes) -> (r: Vec<CheckResult>)
    requires
        probes.plugins_found@.len() == 4,
    ensures
        r@.len() == 10,
        r@[0]@ == spec_check_shell_integration(
            probes.arb_zsh_path@,
            probes.arb_zsh_exists,
            probes.zshrc_path@,
            probes.zshrc_exists,
            opt_str_view(probes.zshrc_content),
        ),
        r@[1]@ == spec_check_starship(
            probes.starship_path@,
            probes.starship_exists,
            probes.starship_mode,
        ),
        r@[2]@ == spec_check_delta(probes.delta_in_path, opt_str_view(probes.git_pager)),
        r@[3]@ == spec_check_user_config(probes.config_path@, probes.config_probe),
        r@[4]@ == spec_check_app_bundle(
            probes.home@,
            probes.global_app_exists,
            probes.user_app_exists,
        ),
        r@[5]@ == spec_check_version(probes.arb_version@, opt_str_view(probes.config_version)),
        forall|i: int|
            6 <= i < 10 ==> (#[trigger] r@[i])@ == spec_zsh_plugin_result(
                probes.plugins_dir@,
                i - 6,
                probes.plugins_found@[i - 6],
            ),
{
    let mut r: Vec<CheckResult> = Vec::new();
    r.push(
        check_shell_integration(
            probes.arb_zsh_path.as_str(),
            probes.arb_zsh_exists,
            probes.zshrc_path.as_str(),
            probes.zshrc_exists,
            &probes.zshrc_content,
        ),
    );
    r.push(
        check_starship(probes.starship_path.as_str(), probes.starship_exists, probes.starship_mode),
    );
    r.push(check_delta(probes.delta_in_path, &probes.git_pager));
    r.push(check_user_config(probes.config_path.as_str(), &probes.config_probe));
    r.push(
        check_app_bundle(probes.home.as_str(), probes.global_app_exists, probes.user_app_exists),
    );
    r.push(check_version(probes.arb_version.as_str(), &probes.config_version));
    r.push(zsh_plugin_result(probes.plugins_dir.as_str(), "zsh-z", 0, probes.plugins_found[0]));
    r.push(
        zsh_plugin_result(
            probes.plugins_dir.as_str(),
            "zsh-autosuggestions",
            1,
            probes.plugins_found[1],
        ),
    );
    r.push(
        zsh_plugin_result(
            probes.plugins_dir.as_str(),
            "zsh-syntax-highlighting",
            2,
            probes.plugins_found[2],
        ),
    );
    r.push(
        zsh_plugin_result(
            probes.plugins_dir.as_str(),
            "zsh-completions",
            3,
            probes.plugins_found[3],
        ),
    );
    r
}

} // verus!
