//! The self-update subsystem's decision logic.
//!
//! Staging an update means downloading, verifying and extracting it into a
//! durable per-tag staging directory, then recording a pending-update
//! marker.  Applying it happens later and is destructive.  Everything that
//! touches the filesystem, the network or other processes lives outside
//! this crate; the functions here take plain values describing what those
//! probes and calls returned, and decide what happens next.

use vstd::prelude::*;
use crate::strutil::{
    chars_of, str_eq_str, eq_ignore_case, seq_eq_ic, contains_seq_ic, contains_str_ic,
    is_digit_char, spec_parse_dec, parse_dec_chars, after_last_char, after_last_str, split_char,
    split_str, trim_ws, trim_str, concat_str, string_from_chars,
};
use crate::version::{cleaned, spec_is_newer, is_newer_version};

verus! {

/// Retention window for old staging directories, in seconds (seven days).
pub const OLD_UPDATE_TTL_SECS: u64 = 60 * 60 * 24 * 7;

pub open spec fn spec_release_api_url() -> Seq<char> {
    "https://api.github.com/repos/szj2ys/arb/releases/latest"@
}

/// The release-metadata endpoint.
pub fn release_api_url() -> (r: &'static str)
    ensures
        r@ == spec_release_api_url(),
{
    "https://api.github.com/repos/szj2ys/arb/releases/latest"
}

pub open spec fn spec_latest_zip_url() -> Seq<char> {
    "https://github.com/szj2ys/arb/releases/latest/download/arb_for_update.zip"@
}

/// Static fallback URL for the update archive.
pub fn latest_zip_url() -> (r: &'static str)
    ensures
        r@ == spec_latest_zip_url(),
{
    "https://github.com/szj2ys/arb/releases/latest/download/arb_for_update.zip"
}

pub open spec fn spec_latest_sha_url() -> Seq<char> {
    "https://github.com/szj2ys/arb/releases/latest/download/arb_for_update.zip.sha256"@
}

/// Static fallback URL for the archive's checksum sidecar.
pub fn latest_sha_url() -> (r: &'static str)
    ensures
        r@ == spec_latest_sha_url(),
{
    "https://github.com/szj2ys/arb/releases/latest/download/arb_for_update.zip.sha256"
}

pub open spec fn spec_release_latest_url() -> Seq<char> {
    "https://github.com/szj2ys/arb/releases/latest"@
}

/// The `latest` release page, whose redirect names the latest tag.
pub fn release_latest_url() -> (r: &'static str)
    ensures
        r@ == spec_release_latest_url(),
{
    "https://github.com/szj2ys/arb/releases/latest"
}

pub open spec fn spec_update_zip_name() -> Seq<char> {
    "arb_for_update.zip"@
}

/// The expected file name of the update archive asset.
pub fn update_zip_name() -> (r: &'static str)
    ensures
        r@ == spec_update_zip_name(),
{
    "arb_for_update.zip"
}

pub open spec fn spec_update_sha_name() -> Seq<char> {
    "arb_for_update.zip.sha256"@
}

/// The expected file name of the checksum sidecar asset.
pub fn update_sha_name() -> (r: &'static str)
    ensures
        r@ == spec_update_sha_name(),
{
    "arb_for_update.zip.sha256"
}

pub open spec fn spec_brew_cask_name() -> Seq<char> {
    "szj2ys/arb/arb"@
}

/// The Homebrew cask identifier of a brew-managed installation.
pub fn brew_cask_name() -> (r: &'static str)
    ensures
        r@ == spec_brew_cask_name(),
{
    "szj2ys/arb/arb"
}

pub open spec fn spec_pending_marker_name() -> Seq<char> {
    "pending-update.json"@
}

/// The file name of the pending-update marker.
pub fn pending_marker_name() -> (r: &'static str)
    ensures
        r@ == spec_pending_marker_name(),
{
    "pending-update.json"
}

/// The update command's arguments: `apply` replaces the installation with a
/// previously staged update instead of staging a new one.
#[derive(Debug, Clone, Default)]
pub struct UpdateCommand {
    pub apply: bool,
}

/// One downloadable asset of a release.
#[derive(Debug, Clone)]
pub struct Asset {
    pub name: String,
    pub size: usize,
    pub url: String,
    pub browser_download_url: String,
}

/// Release metadata: a tag identifier and its downloadable assets.
#[derive(Debug, Clone)]
pub struct Release {
    pub url: String,
    pub body: String,
    pub html_url: String,
    pub tag_name: String,
    pub assets: Vec<Asset>,
}

/// The durable record of a staged-but-not-yet-applied update.
#[derive(Debug, Clone)]
pub struct PendingUpdateMarker {
    pub tag: String,
    pub staging_dir: String,
    pub new_app_path: String,
    pub created_at: u64,
}

impl PendingUpdateMarker {
    /// A marker recording what was staged and when.
    pub fn new(tag: String, staging_dir: String, new_app_path: String, created_at: u64) -> (r:
        Self)
        ensures
            r.tag == tag,
            r.staging_dir == staging_dir,
            r.new_app_path == new_app_path,
            r.created_at == created_at,
    {
        PendingUpdateMarker { tag, staging_dir, new_app_path, created_at }
    }
}

/// A brew-managed installation: the brew binary and the cask it owns.
#[derive(Debug, Clone)]
pub struct BrewInfo {
    pub brew_bin: String,
    pub cask_name: String,
}

/// Who is responsible for updating this installation.
#[derive(Debug, Clone)]
pub enum UpdateProvider {
    Direct,
    Brew(BrewInfo),
}

/// The update subsystem's error cases.
#[derive(Debug)]
pub enum UpdateError {
    /// The provider override names neither `brew` nor `direct`.
    InvalidProvider { value: String },
    /// The override asked for brew but no brew-managed installation exists.
    BrewOverrideWithoutBrew,
    /// The installation looks brew-managed but `brew` cannot be found.
    BrewMissing,
    /// A brew query failed for a reason other than "not installed".
    BrewQueryFailed { detail: String },
    /// The target override does not point at `Arb.app`.
    TargetNotArbApp,
    /// No installed `Arb.app` could be located.
    NoInstalledApp,
    /// The staged bundle a marker points at no longer exists.
    MissingStagedApp { path: String },
    /// The downloaded archive holds no `Arb.app`.
    MissingAppBundle,
    /// The downloaded bundle reports an empty version.
    EmptyAppVersion,
}

// ---------------------------------------------------------------------------
// tags and labels

/// A character that may stand in a staging-directory name unchanged.
pub open spec fn keeps_tag_char(c: char) -> bool {
    is_digit_char(c) || (97 <= c as int && c as int <= 122) || (65 <= c as int && c as int <= 90)
        || c == '.' || c == '-' || c == '_'
}

fn keeps_tag_char_exec(c: char) -> (r: bool)
    ensures
        r == keeps_tag_char(c),
{
    let u = c as u32;
    (48 <= u && u <= 57) || (97 <= u && u <= 122) || (65 <= u && u <= 90) || c == '.' || c == '-'
        || c == '_'
}

/// A release tag made safe for use as a directory name: ASCII letters,
/// digits, `.`, `-` and `_` are kept, every other character becomes `_`.
pub fn sanitize_tag(tag: &str) -> (r: String)
    ensures
        r@.len() == tag@.len(),
        forall|i: int|
            0 <= i < tag@.len() ==> (#[trigger] r@[i]) == (if keeps_tag_char(tag@[i]) {
                tag@[i]
            } else {
                '_'
            }),
{
    let cs = chars_of(tag);
    let n = cs.len();
    let mut out: Vec<char> = Vec::new();
    let mut i: usize = 0;
    while i < n
        invariant
            i <= n,
            n == cs@.len(),
            cs@ == tag@,
            out@.len() == i,
            forall|j: int|
                0 <= j < i ==> (#[trigger] out@[j]) == (if keeps_tag_char(tag@[j]) {
                    tag@[j]
                } else {
                    '_'
                }),
        decreases n - i,
    {
        let c = cs[i];
        if keeps_tag_char_exec(c) {
            out.push(c);
        } else {
            out.push('_');
        }
        i = i + 1;
    }
    string_from_chars(&out)
}

/// A version string as shown to the user: trimmed, without the leading
/// `v`/`V` marker.
pub fn format_version_for_display(version: &str) -> (r: String)
    ensures
        r@ == cleaned(version@),
{
    let cs = crate::version::clean_version_chars(version);
    string_from_chars(&cs)
}

/// The label a release is staged under: its tag, or `latest` when no
/// metadata is available.
pub fn update_label(release: &Option<Release>) -> (r: String)
    ensures
        (*release) matches Some(rel) ==> r@ == rel.tag_name@,
        (*release) is None ==> r@ == "latest"@,
{
    match release {
        Some(rel) => rel.tag_name.clone(),
        None => "latest".to_owned(),
    }
}

// ---------------------------------------------------------------------------
// asset lookup

/// The first asset at or after `i` whose name matches `name` up to ASCII
/// case.
pub open spec fn spec_find_asset_from(assets: Seq<Asset>, name: Seq<char>, i: int) -> Option<int>
    decreases assets.len() - i,
{
    if i < 0 || i >= assets.len() {
        None
    } else if seq_eq_ic(assets[i].name@, name) {
        Some(i)
    } else {
        spec_find_asset_from(assets, name, i + 1)
    }
}

/// Case-insensitive lookup of an asset by file name; yields the index of
/// the first match.
pub fn find_asset(assets: &Vec<Asset>, name: &str) -> (r: Option<usize>)
    ensures
        r matches Some(i) ==> i < assets@.len() && spec_find_asset_from(assets@, name@, 0) == Some(
            i as int,
        ),
        r is None ==> spec_find_asset_from(assets@, name@, 0) is None,
{
    let n = assets.len();
    let mut k: usize = 0;
    while k < n
        invariant
            k <= n,
            n == assets@.len(),
            spec_find_asset_from(assets@, name@, 0) == spec_find_asset_from(
                assets@,
                name@,
                k as int,
            ),
        decreases n - k,
    {
        if eq_ignore_case(assets[k].name.as_str(), name) {
            return Some(k);
        }
        k = k + 1;
    }
    None
}

/// The URL the update archive is downloaded from: the matching asset's
/// download URL, or the static fallback.
pub fn select_zip_url(release: &Option<Release>) -> (r: String)
    ensures
        (*release) is None ==> r@ == spec_latest_zip_url(),
        (*release) matches Some(rel) ==> match spec_find_asset_from(
            rel.assets@,
            spec_update_zip_name(),
            0,
        ) {
            Some(i) => r@ == rel.assets@[i].browser_download_url@,
            None => r@ == spec_latest_zip_url(),
        },
{
    match release {
        Some(rel) => match find_asset(&rel.assets, update_zip_name()) {
            Some(i) => rel.assets[i].browser_download_url.clone(),
            None => latest_zip_url().to_owned(),
        },
        None => latest_zip_url().to_owned(),
    }
}

/// The URL the checksum sidecar is downloaded from: the matching asset's
/// download URL, or the static fallback.
pub fn select_sha_url(release: &Option<Release>) -> (r: String)
    ensures
        (*release) is None ==> r@ == spec_latest_sha_url(),
        (*release) matches Some(rel) ==> match spec_find_asset_from(
            rel.assets@,
            spec_update_sha_name(),
            0,
        ) {
            Some(i) => r@ == rel.assets@[i].browser_download_url@,
            None => r@ == spec_latest_sha_url(),
        },
{
    match release {
        Some(rel) => match find_asset(&rel.assets, update_sha_name()) {
            Some(i) => rel.assets[i].browser_download_url.clone(),
            None => latest_sha_url().to_owned(),
        },
        None => latest_sha_url().to_owned(),
    }
}

// ---------------------------------------------------------------------------
// well-known paths

/// `<data_dir>/updates`: the root under which staging directories live.
pub fn update_root(data_dir: &str) -> (r: String)
    ensures
        r@ == data_dir@ + "/updates"@,
{
    concat_str(data_dir, "/updates")
}

/// `<data_dir>/updates/pending`: the directory holding the current stage.
pub fn pending_dir(data_dir: &str) -> (r: String)
    ensures
        r@ == data_dir@ + "/updates/pending"@,
{
    concat_str(data_dir, "/updates/pending")
}

/// The marker file's path inside the pending directory.
pub fn pending_marker_path_in(pending_dir: &str) -> (r: String)
    ensures
        r@ == pending_dir@ + "/pending-update.json"@,
{
    concat_str(pending_dir, "/pending-update.json")
}

/// The staging directory for a sanitized release label.
pub fn staging_dir_path(pending_dir: &str, normalized_label: &str) -> (r: String)
    ensures
        r@ == pending_dir@ + "/"@ + normalized_label@,
{
    let head = concat_str(pending_dir, "/");
    let r = concat_str(head.as_str(), normalized_label);
    r
}

// ---------------------------------------------------------------------------
// the pending marker

/// What to do about an existing stage before staging `label`.
#[derive(Debug, PartialEq, Eq, Structural)]
pub enum PendingDecision {
    /// The same tag is already staged: keep it, stage nothing.
    AlreadyStaged,
    /// A different tag is staged: delete its stage, then proceed.
    Supersede,
    /// Nothing is staged: proceed.
    Fresh,
}

pub open spec fn spec_check_pending(existing: Option<PendingUpdateMarker>, label: Seq<char>)
    -> PendingDecision {
    match existing {
        None => PendingDecision::Fresh,
        Some(m) => if m.tag@ == label {
            PendingDecision::AlreadyStaged
        } else {
            PendingDecision::Supersede
        },
    }
}

/// Decide what an existing pending marker means for staging `normalized_label`:
/// the same tag is already staged (idempotent), a different tag must be
/// superseded, or nothing is pending.
pub fn check_pending(existing: &Option<PendingUpdateMarker>, normalized_label: &str) -> (r:
    PendingDecision)
    ensures
        r == spec_check_pending(*existing, normalized_label@),
{
    match existing {
        None => PendingDecision::Fresh,
        Some(m) => {
            if str_eq_str(m.tag.as_str(), normalized_label) {
                PendingDecision::AlreadyStaged
            } else {
                PendingDecision::Supersede
            }
        },
    }
}

pub open spec fn spec_pending_cleanup_paths(
    marker_path: Seq<char>,
    marker: Option<PendingUpdateMarker>,
) -> Seq<Seq<char>> {
    match marker {
        None => seq![marker_path],
        Some(m) => seq![marker_path, m.staging_dir@],
    }
}

/// The paths an existing stage occupies, in the order they are removed:
/// the marker file first, then (when the marker could be read) its staging
/// directory.
pub fn pending_cleanup_paths(marker_path: &str, marker: &Option<PendingUpdateMarker>) -> (r: Vec<
    String,
>)
    ensures
        r.deep_view() == spec_pending_cleanup_paths(marker_path@, *marker),
{
    let mut r: Vec<String> = Vec::new();
    r.push(marker_path.to_owned());
    match marker {
        None => {
            proof {
                assert(r.deep_view() =~= seq![marker_path@]);
            }
        },
        Some(m) => {
            r.push(m.staging_dir.clone());
            proof {
                assert(r.deep_view() =~= seq![marker_path@, m.staging_dir@]);
            }
        },
    }
    r
}

/// Staging a second update for a different tag supersedes the first: the
/// decision on the old marker is `Supersede`, and the cleanup plan removes
/// exactly the old marker file and the old stage's directory, before any
/// new stage is written.
pub proof fn lemma_supersession(
    existing: PendingUpdateMarker,
    label: Seq<char>,
    marker_path: Seq<char>,
)
    requires
        existing.tag@ != label,
    ensures
        spec_check_pending(Some(existing), label) == PendingDecision::Supersede,
        spec_pending_cleanup_paths(marker_path, Some(existing)) == seq![
            marker_path,
            existing.staging_dir@,
        ],
{
}

// ---------------------------------------------------------------------------
// cleanup of old staging directories

/// What cleanup needs to know of one entry under the updates root.
#[derive(Debug, Clone)]
pub struct UpdateDirEntry {
    /// The entry's file name (the last path component).
    pub name: String,
    /// Whether the entry is a directory.
    pub is_dir: bool,
    /// The entry's modification time in Unix seconds, where available.
    pub modified_unix: Option<u64>,
}

/// The age a directory name encodes: its `-<unix-seconds>` suffix measured
/// against `now`.  `None` when the suffix is not a number or lies in the
/// future.
pub open spec fn spec_age_from_name(name: Seq<char>, now: u64) -> Option<u64> {
    match spec_parse_dec(after_last_char(name, '-')) {
        None => None,
        Some(ts) => if ts <= now {
            Some((now - ts) as u64)
        } else {
            None
        },
    }
}

/// The age in seconds a staging directory's name encodes, against `now`.
pub fn estimate_update_dir_age_secs(name: &str, now: u64) -> (r: Option<u64>)
    ensures
        r == spec_age_from_name(name@, now),
{
    let suffix = after_last_str(name, '-');
    let cs = chars_of(suffix.as_str());
    match parse_dec_chars(&cs) {
        None => None,
        Some(ts) => {
            if ts <= now {
                Some(now - ts)
            } else {
                None
            }
        },
    }
}

/// Whether cleanup removes an entry: only directories, never the one named
/// `pending`, and only when the name's timestamp suffix (preferred) or the
/// modification time (fallback) says it is older than the retention window.
pub open spec fn spec_should_remove(e: UpdateDirEntry, now: u64) -> bool {
    &&& e.is_dir
    &&& e.name@ != "pending"@
    &&& match spec_age_from_name(e.name@, now) {
        Some(age) => age > OLD_UPDATE_TTL_SECS,
        None => match e.modified_unix {
            Some(m) => m <= now && now - m > OLD_UPDATE_TTL_SECS,
            None => false,
        },
    }
}

/// Decide, for each entry under the updates root, whether cleanup removes
/// it.  A staging directory whose name encodes an age beyond the retention
/// window is removed; one within the window is kept; the `pending`
/// directory and non-directories are never removed.
pub fn cleanup_old_update_dirs_for_tests(entries: &Vec<UpdateDirEntry>, now: u64) -> (remove: Vec<
    bool,
>)
    ensures
        remove@.len() == entries@.len(),
        forall|i: int|
            0 <= i < entries@.len() ==> (#[trigger] remove@[i]) == spec_should_remove(
                entries@[i],
                now,
            ),
{
    let n = entries.len();
    let mut remove: Vec<bool> = Vec::new();
    let mut i: usize = 0;
    while i < n
        invariant
            i <= n,
            n == entries@.len(),
            remove@.len() == i,
            forall|j: int|
                0 <= j < i ==> (#[trigger] remove@[j]) == spec_should_remove(entries@[j], now),
        decreases n - i,
    {
        let e = &entries[i];
        let mut del: bool = false;
        if e.is_dir && !str_eq_str(e.name.as_str(), "pending") {
            match estimate_update_dir_age_secs(e.name.as_str(), now) {
                Some(age) => {
                    del = age > OLD_UPDATE_TTL_SECS;
                },
                None => {
                    match e.modified_unix {
                        Some(m) => {
                            del = m <= now && now - m > OLD_UPDATE_TTL_SECS;
                        },
                        None => {
                            del = false;
                        },
                    }
                },
            }
        }
        remove.push(del);
        i = i + 1;
    }
    remove
}

// ---------------------------------------------------------------------------
// provider selection

/// A path has a `Caskroom` component, the sign of a brew-managed install.
pub open spec fn path_has_caskroom(p: Seq<char>) -> bool {
    exists|i: int|
        0 <= i < split_char(p, '/').len() && #[trigger] split_char(p, '/')[i] == "Caskroom"@
}

/// Does any `/`-separated component of `path` equal `Caskroom`?
pub fn path_contains_caskroom(path: &str) -> (r: bool)
    ensures
        r == path_has_caskroom(path@),
{
    let parts = split_str(path, '/');
    let n = parts.len();
    let mut i: usize = 0;
    while i < n
        invariant
            i <= n,
            n == parts@.len(),
            parts.deep_view() == split_char(path@, '/'),
            forall|j: int| 0 <= j < i ==> #[trigger] split_char(path@, '/')[j] != "Caskroom"@,
        decreases n - i,
    {
        if str_eq_str(parts[i].as_str(), "Caskroom") {
            proof {
                assert(split_char(path@, '/')[i as int] == parts@[i as int]@);
            }
            return true;
        }
        proof {
            assert(split_char(path@, '/')[i as int] == parts@[i as int]@);
        }
        i = i + 1;
    }
    false
}

/// Pick the update provider.
///
/// An explicit override wins: `brew` demands a brew-managed installation,
/// `direct` forces the download path, anything else is rejected.  Without
/// an override, a detected brew-managed installation delegates to brew;
/// otherwise the direct path is used — unless the installation looks
/// brew-managed (a `Caskroom` component in the running executable's path or
/// in the target override) while `brew` itself cannot be found, which is an
/// error.
pub fn resolve_update_provider(
    override_value: &Option<String>,
    brew: Option<BrewInfo>,
    exe_path: &str,
    target_override: &Option<String>,
    brew_binary_found: bool,
) -> (r: Result<UpdateProvider, UpdateError>)
    ensures
        (*override_value) matches Some(v) ==> {
            &&& (seq_eq_ic(v@, "brew"@) && brew is Some ==> (r matches Ok(UpdateProvider::Brew(b))
                && b == brew->Some_0))
            &&& (seq_eq_ic(v@, "brew"@) && brew is None ==> r matches Err(
                UpdateError::BrewOverrideWithoutBrew,
            ))
            &&& (!seq_eq_ic(v@, "brew"@) && seq_eq_ic(v@, "direct"@) ==> r matches Ok(
                UpdateProvider::Direct,
            ))
            &&& (!seq_eq_ic(v@, "brew"@) && !seq_eq_ic(v@, "direct"@) ==> (r matches Err(
                UpdateError::InvalidProvider { value },
            ) && value@ == v@))
        },
        (*override_value) is None ==> {
            &&& (brew matches Some(b) ==> (r matches Ok(UpdateProvider::Brew(b2)) && b2 == b))
            &&& (brew is None ==> {
                let managed_but_no_brew = (*target_override) matches Some(t) && (path_has_caskroom(
                    exe_path@,
                ) || path_has_caskroom(t@)) && !brew_binary_found;
                &&& (managed_but_no_brew ==> r matches Err(UpdateError::BrewMissing))
                &&& (!managed_but_no_brew ==> r matches Ok(UpdateProvider::Direct))
            })
        },
{
    match override_value {
        Some(v) => {
            if eq_ignore_case(v.as_str(), "brew") {
                match brew {
                    Some(b) => Ok(UpdateProvider::Brew(b)),
                    None => Err(UpdateError::BrewOverrideWithoutBrew),
                }
            } else if eq_ignore_case(v.as_str(), "direct") {
                Ok(UpdateProvider::Direct)
            } else {
                Err(UpdateError::InvalidProvider { value: v.clone() })
            }
        },
        None => {
            match brew {
                Some(b) => Ok(UpdateProvider::Brew(b)),
                None => {
                    let looks_managed = match target_override {
                        Some(t) => path_contains_caskroom(exe_path) || path_contains_caskroom(
                            t.as_str(),
                        ),
                        None => false,
                    };
                    if looks_managed && !brew_binary_found {
                        Err(UpdateError::BrewMissing)
                    } else {
                        Ok(UpdateProvider::Direct)
                    }
                },
            }
        },
    }
}

// ---------------------------------------------------------------------------
// brew queries

/// Read the outcome of `brew list --cask --versions <cask>`: on success the
/// cask is installed iff anything was printed; a failure that names a
/// missing cask (or exits with code 1) means "not installed"; any other
/// failure is reported.
pub fn interpret_cask_list(
    success: bool,
    exit_code_is_one: bool,
    stdout: &str,
    stderr: &str,
) -> (r: Result<bool, UpdateError>)
    ensures
        success ==> (r matches Ok(b) && b == (trim_ws(stdout@).len() > 0)),
        !success && (contains_seq_ic(stderr@, "no such cask"@) || contains_seq_ic(
            stderr@,
            "not installed"@,
        ) || exit_code_is_one) ==> r matches Ok(false),
        !success && !(contains_seq_ic(stderr@, "no such cask"@) || contains_seq_ic(
            stderr@,
            "not installed"@,
        ) || exit_code_is_one) ==> (r matches Err(UpdateError::BrewQueryFailed { detail })
            && detail@ == trim_ws(stderr@)),
{
    if success {
        let out = trim_str(stdout);
        let nonempty = out.as_str().unicode_len() > 0;
        return Ok(nonempty);
    }
    if contains_str_ic(stderr, "no such cask") || contains_str_ic(stderr, "not installed")
        || exit_code_is_one {
        return Ok(false);
    }
    Err(UpdateError::BrewQueryFailed { detail: trim_str(stderr) })
}

/// Read the outcome of `brew outdated --cask --quiet <cask>`: an update is
/// available iff anything was printed.
pub fn interpret_cask_outdated(stdout: &str) -> (r: bool)
    ensures
        r == (trim_ws(stdout@).len() > 0),
{
    let out = trim_str(stdout);
    out.as_str().unicode_len() > 0
}

/// The cask name to retry a failed upgrade under: the legacy name for the
/// current one, and the current name for anything else.
pub fn fallback_cask_name(cask_name: &str) -> (r: &'static str)
    ensures
        cask_name@ == spec_brew_cask_name() ==> r@ == "arb"@,
        cask_name@ != spec_brew_cask_name() ==> r@ == spec_brew_cask_name(),
{
    if str_eq_str(cask_name, brew_cask_name()) {
        "arb"
    } else {
        brew_cask_name()
    }
}

/// Decide whether the installation is brew-managed, given whether the brew
/// binary was found and what the cask queries said.  Yields the brew info
/// to delegate to, and whether to warn about the legacy cask name (which
/// conflicts with another package and must be migrated by hand; the update
/// then falls back to the direct path).
pub fn resolve_brew_info(brew_bin: Option<String>, new_installed: bool, old_installed: bool) -> (r:
    (Option<BrewInfo>, bool))
    ensures
        brew_bin is None ==> r.0 is None && r.1 == false,
        brew_bin matches Some(bin) ==> {
            &&& (new_installed ==> (r.0 matches Some(b) && b.brew_bin == bin && b.cask_name@
                == spec_brew_cask_name() && r.1 == false))
            &&& (!new_installed ==> r.0 is None && r.1 == old_installed)
        },
{
    match brew_bin {
        None => (None, false),
        Some(bin) => {
            if new_installed {
                (Some(BrewInfo { brew_bin: bin, cask_name: brew_cask_name().to_owned() }), false)
            } else {
                (None, old_installed)
            }
        },
    }
}

// ---------------------------------------------------------------------------
// locating the installed application

/// The first path at or after `i` whose file name is `Arb.app` up to ASCII
/// case.
pub open spec fn spec_first_arb_app_path(paths: Seq<Seq<char>>, i: int) -> Option<int>
    decreases paths.len() - i,
{
    if i < 0 || i >= paths.len() {
        None
    } else if seq_eq_ic(after_last_char(paths[i], '/'), "Arb.app"@) {
        Some(i)
    } else {
        spec_first_arb_app_path(paths, i + 1)
    }
}

/// Resolve the path of the installed application bundle.
///
/// An explicit target override must point at `Arb.app` (by its last path
/// component) and then wins.  Otherwise the running executable's ancestors
/// are searched for a component named `Arb.app` (ignoring ASCII case), and
/// failing that, the well-known `/Applications/Arb.app` is used when it
/// exists.
pub fn resolve_target_app_path(
    override_path: &Option<String>,
    exe_ancestors: &Vec<String>,
    default_app_exists: bool,
) -> (r: Result<String, UpdateError>)
    ensures
        (*override_path) matches Some(p) ==> {
            &&& (after_last_char(p@, '/') == "Arb.app"@ ==> (r matches Ok(t) && t@ == p@))
            &&& (after_last_char(p@, '/') != "Arb.app"@ ==> r matches Err(
                UpdateError::TargetNotArbApp,
            ))
        },
        (*override_path) is None ==> match spec_first_arb_app_path(exe_ancestors.deep_view(), 0) {
            Some(i) => r matches Ok(t) && t@ == exe_ancestors.deep_view()[i],
            None => {
                &&& (default_app_exists ==> (r matches Ok(t) && t@ == "/Applications/Arb.app"@))
                &&& (!default_app_exists ==> r matches Err(UpdateError::NoInstalledApp))
            },
        },
{
    match override_path {
        Some(p) => {
            let last = after_last_str(p.as_str(), '/');
            if str_eq_str(last.as_str(), "Arb.app") {
                Ok(p.clone())
            } else {
                Err(UpdateError::TargetNotArbApp)
            }
        },
        None => {
            let n = exe_ancestors.len();
            let mut i: usize = 0;
            while i < n
                invariant
                    i <= n,
                    n == exe_ancestors@.len(),
                    (*override_path) is None,
                    spec_first_arb_app_path(exe_ancestors.deep_view(), 0)
                        == spec_first_arb_app_path(exe_ancestors.deep_view(), i as int),
                decreases n - i,
            {
                let a = &exe_ancestors[i];
                let last = after_last_str(a.as_str(), '/');
                proof {
                    assert(exe_ancestors.deep_view()[i as int] == exe_ancestors@[i as int]@);
                }
                if eq_ignore_case(last.as_str(), "Arb.app") {
                    return Ok(a.clone());
                }
                i = i + 1;
            }
            if default_app_exists {
                Ok("/Applications/Arb.app".to_owned())
            } else {
                Err(UpdateError::NoInstalledApp)
            }
        },
    }
}

/// Locate the application bundle inside the extraction directory: the
/// direct `Arb.app` child when it exists, else the first entry whose file
/// name matches `Arb.app` ignoring ASCII case.
pub fn find_arb_app(extracted_dir: &str, direct_exists: bool, entries: &Vec<String>) -> (r: Option<
    String,
>)
    ensures
        direct_exists ==> (r matches Some(p) && p@ == extracted_dir@ + "/Arb.app"@),
        !direct_exists ==> match spec_first_arb_app_path(entries.deep_view(), 0) {
            Some(i) => r matches Some(p) && p@ == entries.deep_view()[i],
            None => r is None,
        },
{
    if direct_exists {
        return Some(concat_str(extracted_dir, "/Arb.app"));
    }
    let n = entries.len();
    let mut i: usize = 0;
    while i < n
        invariant
            i <= n,
            n == entries@.len(),
            !direct_exists,
            spec_first_arb_app_path(entries.deep_view(), 0) == spec_first_arb_app_path(
                entries.deep_view(),
                i as int,
            ),
        decreases n - i,
    {
        let e = &entries[i];
        let last = after_last_str(e.as_str(), '/');
        proof {
            assert(entries.deep_view()[i as int] == entries@[i as int]@);
        }
        if eq_ignore_case(last.as_str(), "Arb.app") {
            return Some(e.clone());
        }
        i = i + 1;
    }
    None
}

// ---------------------------------------------------------------------------
// applying a staged update

/// The check before any destructive step: the staged bundle the marker
/// points at must still exist; a stale marker is an error (and the caller
/// then deletes it).
pub fn apply_precheck(marker: &PendingUpdateMarker, staged_app_exists: bool) -> (r: Result<
    (),
    UpdateError,
>)
    ensures
        staged_app_exists ==> r is Ok,
        !staged_app_exists ==> (r matches Err(UpdateError::MissingStagedApp { path }) && path@
            == marker.new_app_path@),
{
    if staged_app_exists {
        Ok(())
    } else {
        Err(UpdateError::MissingStagedApp { path: marker.new_app_path.clone() })
    }
}

// ---------------------------------------------------------------------------
// release resolution fallback

/// The release tag named by the final URL of the `latest` redirect: the
/// trimmed last path segment, when there is one.
pub fn tag_from_redirect_url(effective_url: &str) -> (r: Option<String>)
    ensures
        ({
            let t = trim_ws(effective_url@);
            let g = trim_ws(after_last_char(t, '/'));
            &&& (t.len() == 0 ==> r is None)
            &&& (t.len() > 0 && g.len() == 0 ==> r is None)
            &&& (t.len() > 0 && g.len() > 0 ==> (r matches Some(tag) && tag@ == g))
        }),
{
    let t = trim_str(effective_url);
    if t.as_str().unicode_len() == 0 {
        return None;
    }
    let seg = after_last_str(t.as_str(), '/');
    let g = trim_str(seg.as_str());
    if g.as_str().unicode_len() == 0 {
        None
    } else {
        Some(g)
    }
}

/// The version a downloaded bundle reports: the trimmed output of reading
/// its version record, which must be non-empty.
pub fn interpret_app_version(output: &str) -> (r: Result<String, UpdateError>)
    ensures
        trim_ws(output@).len() > 0 ==> (r matches Ok(v) && v@ == trim_ws(output@)),
        trim_ws(output@).len() == 0 ==> r matches Err(UpdateError::EmptyAppVersion),
{
    let v = trim_str(output);
    if v.as_str().unicode_len() > 0 {
        Ok(v)
    } else {
        Err(UpdateError::EmptyAppVersion)
    }
}

// ---------------------------------------------------------------------------
// the background update checker's decisions

/// How long the background checker sleeps before its next check: the
/// remainder of the check interval when the last check's age is known and
/// within the interval, else the short initial delay.  A forced UI always
/// uses the initial delay.
pub fn update_check_delay(
    interval_secs: u64,
    initial_secs: u64,
    elapsed_since_last_check: Option<u64>,
    force_ui: bool,
) -> (r: u64)
    ensures
        force_ui ==> r == initial_secs,
        !force_ui ==> match elapsed_since_last_check {
            Some(e) => if e <= interval_secs {
                r == interval_secs - e
            } else {
                r == initial_secs
            },
            None => r == initial_secs,
        },
{
    if force_ui {
        return initial_secs;
    }
    match elapsed_since_last_check {
        Some(e) => {
            if e <= interval_secs {
                interval_secs - e
            } else {
                initial_secs
            }
        },
        None => initial_secs,
    }
}

/// Leader election among the running GUI processes, by sort order of their
/// discovered sockets: the process owning the first socket in the list
/// shows notifications.  An empty list leaves this process in charge.
pub fn is_notification_leader(socks: &Vec<String>, my_sock: &str) -> (r: bool)
    ensures
        r == (socks@.len() == 0 || socks.deep_view()[0] == my_sock@),
{
    if socks.len() == 0 {
        return true;
    }
    proof {
        assert(socks.deep_view()[0] == socks@[0]@);
    }
    str_eq_str(socks[0].as_str(), my_sock)
}

/// Whether this process shows the update notification: the release must be
/// newer (or the UI forced), and this process must be the notification
/// leader (or the UI forced).
pub fn should_notify_update(
    latest_tag: &str,
    current: &str,
    force_ui: bool,
    socks: &Vec<String>,
    my_sock: &str,
) -> (r: bool)
    ensures
        r == ((spec_is_newer(latest_tag@, current@) || force_ui) && (force_ui || socks@.len() == 0
            || socks.deep_view()[0] == my_sock@)),
{
    let newer = is_newer_version(latest_tag, current);
    if !(newer || force_ui) {
        return false;
    }
    force_ui || is_notification_leader(socks, my_sock)
}

} // verus!
