use arb::checksum::{parse_expected_digest, verify_sha256, ChecksumError};
use arb::update::{
    apply_precheck, brew_cask_name, check_pending, cleanup_old_update_dirs_for_tests,
    estimate_update_dir_age_secs, fallback_cask_name, find_asset, format_version_for_display,
    interpret_app_version, interpret_cask_list, interpret_cask_outdated, is_notification_leader,
    latest_sha_url, latest_zip_url, path_contains_caskroom, pending_cleanup_paths, pending_dir,
    pending_marker_path_in, release_api_url, release_latest_url, resolve_brew_info,
    resolve_target_app_path, resolve_update_provider, sanitize_tag, select_sha_url, select_zip_url,
    should_notify_update, staging_dir_path, tag_from_redirect_url, update_check_delay,
    update_label, update_root, Asset, PendingDecision, PendingUpdateMarker, Release, UpdateDirEntry,
    UpdateError, UpdateProvider,
};

// ── sanitize_tag ───────────────────────────────────────────

#[test]
fn sanitize_tag_keeps_valid_tag_unchanged() {
    assert_eq!(sanitize_tag("v0.3.2"), "v0.3.2");
}

#[test]
fn sanitize_tag_replaces_special_characters() {
    assert_eq!(sanitize_tag("v0.3.2-beta+build"), "v0.3.2-beta_build");
}

#[test]
fn sanitize_tag_replaces_spaces_and_punctuation() {
    assert_eq!(sanitize_tag("hello world!"), "hello_world_");
}

// ── format_version_for_display ─────────────────────────────

#[test]
fn format_version_for_display_strips_lowercase_v() {
    assert_eq!(format_version_for_display("v0.3.2"), "0.3.2");
}

#[test]
fn format_version_for_display_strips_uppercase_v() {
    assert_eq!(format_version_for_display("V0.3.2"), "0.3.2");
}

#[test]
fn format_version_for_display_no_prefix_unchanged() {
    assert_eq!(format_version_for_display("0.3.2"), "0.3.2");
}

#[test]
fn format_version_for_display_trims_whitespace() {
    assert_eq!(format_version_for_display("  v0.3.2  "), "0.3.2");
}

// ── well-known names and URLs ──────────────────────────────

#[test]
fn should_have_correct_brew_cask_name() {
    assert_eq!(
        brew_cask_name(),
        "szj2ys/arb/arb",
        "the brew cask name must be 'szj2ys/arb/arb'"
    );
}

#[test]
fn should_have_correct_github_urls() {
    let urls = [
        ("release_api_url", release_api_url()),
        ("latest_zip_url", latest_zip_url()),
        ("latest_sha_url", latest_sha_url()),
        ("release_latest_url", release_latest_url()),
    ];

    for (name, url) in &urls {
        assert!(
            url.contains("szj2ys/arb"),
            "{} must contain 'szj2ys/arb', got: {}",
            name,
            url
        );
        assert!(!url.contains("tw93"), "{} must NOT contain 'tw93', got: {}", name, url);
    }
}

// ── cleanup of old staging directories ─────────────────────

fn dir_entry(name: &str) -> UpdateDirEntry {
    UpdateDirEntry { name: name.to_string(), is_dir: true, modified_unix: None }
}

#[test]
fn update_cleanup_should_cleanup_old_update_dirs_when_older_than_7_days() {
    let now: u64 = 1_700_000_000;
    let eight_days_secs: u64 = 60 * 60 * 24 * 8;

    let entries = vec![
        dir_entry(&format!("v0.0.0-{}", now - eight_days_secs)),
        dir_entry(&format!("v0.0.0-{}", now)),
        dir_entry("pending"),
    ];

    let removed = cleanup_old_update_dirs_for_tests(&entries, now);

    assert_eq!(removed, vec![true, false, false]);
}

#[test]
fn should_keep_recent_update_dirs() {
    let now: u64 = 1_700_000_000;

    // A directory created 1 hour ago (well within the 7-day window).
    let one_hour_ago = now - 3600;
    // A directory created 6 days ago (still within the window).
    let six_days_ago = now - 60 * 60 * 24 * 6;

    let entries = vec![
        dir_entry(&format!("v0.2.0-{}", one_hour_ago)),
        dir_entry(&format!("v0.3.0-{}", now)),
        dir_entry(&format!("v0.1.0-{}", six_days_ago)),
    ];

    let removed = cleanup_old_update_dirs_for_tests(&entries, now);

    assert_eq!(
        removed,
        vec![false, false, false],
        "directories within the retention window should be kept"
    );
}

#[test]
fn should_ignore_non_directory_entries() {
    let now: u64 = 1_700_000_000;
    let eight_days_secs: u64 = 60 * 60 * 24 * 8;

    let entries = vec![
        UpdateDirEntry {
            name: format!("v0.0.0-{}", now - eight_days_secs),
            is_dir: false,
            modified_unix: Some(now - eight_days_secs),
        },
        UpdateDirEntry { name: "some-metadata.json".to_string(), is_dir: false, modified_unix: None },
    ];

    let removed = cleanup_old_update_dirs_for_tests(&entries, now);

    assert_eq!(
        removed,
        vec![false, false],
        "regular files should not be cleaned up even if they look old"
    );
}

#[test]
fn should_handle_empty_updates_dir() {
    let entries: Vec<UpdateDirEntry> = vec![];
    let removed = cleanup_old_update_dirs_for_tests(&entries, 1_700_000_000);
    assert!(removed.is_empty());
}

#[test]
fn cleanup_falls_back_to_modification_time() {
    let now: u64 = 1_700_000_000;
    let old = now - 60 * 60 * 24 * 8;
    let recent = now - 60;

    let entries = vec![
        // no timestamp suffix: the modification time decides
        UpdateDirEntry { name: "scratch".to_string(), is_dir: true, modified_unix: Some(old) },
        UpdateDirEntry { name: "scratch2".to_string(), is_dir: true, modified_unix: Some(recent) },
        // no timestamp and no modification time: kept
        UpdateDirEntry { name: "scratch3".to_string(), is_dir: true, modified_unix: None },
        // a future timestamp suffix falls back to the modification time
        UpdateDirEntry {
            name: format!("v1-{}", now + 100),
            is_dir: true,
            modified_unix: Some(old),
        },
    ];

    let removed = cleanup_old_update_dirs_for_tests(&entries, now);
    assert_eq!(removed, vec![true, false, false, true]);
}

#[test]
fn age_is_read_from_the_name_suffix() {
    let now: u64 = 1_700_000_000;
    assert_eq!(estimate_update_dir_age_secs("v0.0.0-1699999000", now), Some(1000));
    assert_eq!(estimate_update_dir_age_secs("1699999000", now), Some(1000));
    assert_eq!(estimate_update_dir_age_secs("pending", now), None);
    assert_eq!(estimate_update_dir_age_secs(&format!("v1-{}", now + 5), now), None);
    assert_eq!(estimate_update_dir_age_secs("v1-12x4", now), None);
}

// ── the pending marker ─────────────────────────────────────

#[test]
fn marker_supersession_deletes_the_old_stage_first() {
    let existing = PendingUpdateMarker::new(
        "v0.3.2".to_string(),
        "/data/updates/pending/v0.3.2".to_string(),
        "/data/updates/pending/v0.3.2/extracted/Arb.app".to_string(),
        1_700_000_000,
    );

    // a different tag supersedes the stage
    let decision = check_pending(&Some(existing.clone()), "v0.4.0");
    assert_eq!(decision, PendingDecision::Supersede);

    // and the cleanup plan removes the marker file, then the old directory
    let paths =
        pending_cleanup_paths("/data/updates/pending/pending-update.json", &Some(existing));
    assert_eq!(
        paths,
        vec![
            "/data/updates/pending/pending-update.json".to_string(),
            "/data/updates/pending/v0.3.2".to_string(),
        ]
    );
}

#[test]
fn staging_the_same_tag_again_is_idempotent() {
    let existing = PendingUpdateMarker::new(
        "v0.3.2".to_string(),
        "/data/updates/pending/v0.3.2".to_string(),
        "/data/updates/pending/v0.3.2/extracted/Arb.app".to_string(),
        1_700_000_000,
    );
    assert_eq!(check_pending(&Some(existing), "v0.3.2"), PendingDecision::AlreadyStaged);
    assert_eq!(check_pending(&None, "v0.3.2"), PendingDecision::Fresh);
}

#[test]
fn unreadable_marker_still_removes_the_marker_file() {
    let paths = pending_cleanup_paths("/data/pending-update.json", &None);
    assert_eq!(paths, vec!["/data/pending-update.json".to_string()]);
}

#[test]
fn well_known_paths_are_joined_from_the_data_dir() {
    assert_eq!(update_root("/data"), "/data/updates");
    assert_eq!(pending_dir("/data"), "/data/updates/pending");
    assert_eq!(
        pending_marker_path_in("/data/updates/pending"),
        "/data/updates/pending/pending-update.json"
    );
    assert_eq!(
        staging_dir_path("/data/updates/pending", "v0.4.0"),
        "/data/updates/pending/v0.4.0"
    );
}

// ── checksum verification ──────────────────────────────────

const GOOD_DIGEST: &str = "e3b0c44298fc1c149afbf4c8996fb92427ae41e4649b934ca495991b7852b855";

#[test]
fn checksum_accepts_a_64_char_hex_digest() {
    let text = format!("{}  arb_for_update.zip\n", GOOD_DIGEST);
    assert_eq!(parse_expected_digest(&text).unwrap(), GOOD_DIGEST);
}

#[test]
fn checksum_rejects_wrong_length() {
    // 63 characters
    let short = &GOOD_DIGEST[..63];
    assert!(matches!(
        parse_expected_digest(short),
        Err(ChecksumError::InvalidDigest { .. })
    ));
    // 65 characters
    let long = format!("{}a", GOOD_DIGEST);
    assert!(matches!(
        parse_expected_digest(&long),
        Err(ChecksumError::InvalidDigest { .. })
    ));
}

#[test]
fn checksum_rejects_non_hex_content() {
    let bad = format!("{}g", &GOOD_DIGEST[..63]);
    assert_eq!(bad.len(), 64);
    assert!(matches!(
        parse_expected_digest(&bad),
        Err(ChecksumError::InvalidDigest { .. })
    ));
}

#[test]
fn checksum_rejects_empty_file() {
    assert!(matches!(
        parse_expected_digest("   \n\t"),
        Err(ChecksumError::EmptyChecksumFile)
    ));
}

#[test]
fn checksum_match_is_case_insensitive() {
    let sidecar = format!("{}  arb_for_update.zip", GOOD_DIGEST);
    let shasum_line = format!("{}  /tmp/arb_for_update.zip", GOOD_DIGEST.to_uppercase());
    assert!(verify_sha256(&sidecar, &shasum_line).is_ok());
}

#[test]
fn checksum_mismatch_is_fatal() {
    let sidecar = format!("{}  arb_for_update.zip", GOOD_DIGEST);
    let other = format!("{}1 x", &GOOD_DIGEST[..63]);
    match verify_sha256(&sidecar, &other) {
        Err(ChecksumError::Mismatch { expected, actual }) => {
            assert_eq!(expected, GOOD_DIGEST);
            assert_eq!(actual, format!("{}1", &GOOD_DIGEST[..63]));
        }
        other => panic!("expected a mismatch, got {:?}", other),
    }
}

#[test]
fn checksum_needs_a_computed_digest() {
    let sidecar = format!("{}  arb_for_update.zip", GOOD_DIGEST);
    assert!(matches!(
        verify_sha256(&sidecar, "  "),
        Err(ChecksumError::EmptyDigestOutput)
    ));
}

// ── release metadata and asset selection ───────────────────

fn release_with(assets: Vec<Asset>) -> Release {
    Release {
        url: String::new(),
        body: String::new(),
        html_url: String::new(),
        tag_name: "v0.4.0".to_string(),
        assets,
    }
}

fn asset(name: &str, dl: &str) -> Asset {
    Asset {
        name: name.to_string(),
        size: 0,
        url: String::new(),
        browser_download_url: dl.to_string(),
    }
}

#[test]
fn find_asset_matches_case_insensitively() {
    let assets = vec![asset("Other.zip", "u0"), asset("ARB_FOR_UPDATE.ZIP", "u1")];
    assert_eq!(find_asset(&assets, "arb_for_update.zip"), Some(1));
    assert_eq!(find_asset(&assets, "missing.zip"), None);
}

#[test]
fn zip_url_prefers_the_release_asset() {
    let rel = release_with(vec![asset("arb_for_update.zip", "https://example.invalid/a.zip")]);
    assert_eq!(select_zip_url(&Some(rel)), "https://example.invalid/a.zip");
    assert_eq!(select_zip_url(&None), latest_zip_url());
    let empty = release_with(vec![]);
    assert_eq!(select_zip_url(&Some(empty)), latest_zip_url());
}

#[test]
fn sha_url_prefers_the_release_asset() {
    let rel =
        release_with(vec![asset("arb_for_update.zip.sha256", "https://example.invalid/a.sha")]);
    assert_eq!(select_sha_url(&Some(rel)), "https://example.invalid/a.sha");
    assert_eq!(select_sha_url(&None), latest_sha_url());
}

#[test]
fn update_label_falls_back_to_latest() {
    let rel = release_with(vec![]);
    assert_eq!(update_label(&Some(rel)), "v0.4.0");
    assert_eq!(update_label(&None), "latest");
}

#[test]
fn redirect_tag_is_the_last_path_segment() {
    assert_eq!(
        tag_from_redirect_url("https://github.com/szj2ys/arb/releases/tag/v0.4.0\n"),
        Some("v0.4.0".to_string())
    );
    assert_eq!(tag_from_redirect_url("   "), None);
    assert_eq!(tag_from_redirect_url("https://example.invalid/"), None);
}

// ── provider selection ─────────────────────────────────────

fn brew_info() -> arb::update::BrewInfo {
    arb::update::BrewInfo {
        brew_bin: "/opt/homebrew/bin/brew".to_string(),
        cask_name: brew_cask_name().to_string(),
    }
}

#[test]
fn provider_override_brew_requires_brew() {
    let r = resolve_update_provider(&Some("brew".to_string()), Some(brew_info()), "/x", &None, true);
    assert!(matches!(r, Ok(UpdateProvider::Brew(_))));

    let r = resolve_update_provider(&Some("BREW".to_string()), None, "/x", &None, false);
    assert!(matches!(r, Err(UpdateError::BrewOverrideWithoutBrew)));
}

#[test]
fn provider_override_direct_forces_direct() {
    let r = resolve_update_provider(&Some("direct".to_string()), Some(brew_info()), "/x", &None, true);
    assert!(matches!(r, Ok(UpdateProvider::Direct)));
}

#[test]
fn provider_override_other_is_invalid() {
    let r = resolve_update_provider(&Some("cargo".to_string()), None, "/x", &None, false);
    match r {
        Err(UpdateError::InvalidProvider { value }) => assert_eq!(value, "cargo"),
        other => panic!("expected an invalid-provider error, got {:?}", other),
    }
}

#[test]
fn detected_brew_installation_delegates() {
    let r = resolve_update_provider(&None, Some(brew_info()), "/x", &None, true);
    assert!(matches!(r, Ok(UpdateProvider::Brew(_))));
}

#[test]
fn caskroom_path_without_brew_is_an_error() {
    let exe = "/opt/homebrew/Caskroom/arb/0.3/Arb.app/Contents/MacOS/arb";
    let r = resolve_update_provider(&None, None, exe, &Some("/x/Arb.app".to_string()), false);
    assert!(matches!(r, Err(UpdateError::BrewMissing)));

    // with brew present the direct path is allowed
    let r = resolve_update_provider(&None, None, exe, &Some("/x/Arb.app".to_string()), true);
    assert!(matches!(r, Ok(UpdateProvider::Direct)));

    // and without a target override, nothing is checked
    let r = resolve_update_provider(&None, None, exe, &None, false);
    assert!(matches!(r, Ok(UpdateProvider::Direct)));
}

#[test]
fn caskroom_component_is_detected() {
    assert!(path_contains_caskroom("/opt/homebrew/Caskroom/arb/0.3"));
    assert!(!path_contains_caskroom("/Applications/Arb.app"));
    assert!(!path_contains_caskroom("/opt/Caskroomish/x"));
}

// ── brew queries ───────────────────────────────────────────

#[test]
fn cask_list_success_means_installed_when_output_nonempty() {
    assert_eq!(interpret_cask_list(true, false, "arb 0.3.2\n", "").unwrap(), true);
    assert_eq!(interpret_cask_list(true, false, "  \n", "").unwrap(), false);
}

#[test]
fn cask_list_missing_cask_means_not_installed() {
    assert_eq!(
        interpret_cask_list(false, false, "", "Error: No such cask: arb").unwrap(),
        false
    );
    assert_eq!(
        interpret_cask_list(false, false, "", "arb is Not Installed").unwrap(),
        false
    );
    assert_eq!(interpret_cask_list(false, true, "", "boom").unwrap(), false);
}

#[test]
fn cask_list_other_failures_are_reported() {
    match interpret_cask_list(false, false, "", "  network unreachable  ") {
        Err(UpdateError::BrewQueryFailed { detail }) => assert_eq!(detail, "network unreachable"),
        other => panic!("expected a brew query failure, got {:?}", other),
    }
}

#[test]
fn cask_outdated_means_nonempty_output() {
    assert!(interpret_cask_outdated("arb\n"));
    assert!(!interpret_cask_outdated("  \n"));
}

#[test]
fn fallback_cask_name_flips_between_current_and_legacy() {
    assert_eq!(fallback_cask_name("szj2ys/arb/arb"), "arb");
    assert_eq!(fallback_cask_name("arb"), "szj2ys/arb/arb");
}

#[test]
fn legacy_cask_warns_and_falls_back_to_direct() {
    let (info, warn) = resolve_brew_info(Some("/usr/local/bin/brew".to_string()), false, true);
    assert!(info.is_none());
    assert!(warn, "the legacy cask name must trigger a migration warning");

    let (info, warn) = resolve_brew_info(Some("/usr/local/bin/brew".to_string()), true, false);
    assert_eq!(info.unwrap().cask_name, brew_cask_name());
    assert!(!warn);

    let (info, warn) = resolve_brew_info(None, true, true);
    assert!(info.is_none());
    assert!(!warn);
}

// ── locating and applying ──────────────────────────────────

#[test]
fn target_override_must_point_at_the_app() {
    let r = resolve_target_app_path(&Some("/custom/Arb.app".to_string()), &vec![], false);
    assert_eq!(r.unwrap(), "/custom/Arb.app");

    let r = resolve_target_app_path(&Some("/custom/Other.app".to_string()), &vec![], true);
    assert!(matches!(r, Err(UpdateError::TargetNotArbApp)));
}

#[test]
fn target_is_found_among_the_executable_ancestors() {
    let ancestors = vec![
        "/Applications/Arb.app/Contents/MacOS/arb".to_string(),
        "/Applications/Arb.app/Contents/MacOS".to_string(),
        "/Applications/ARB.APP".to_string(),
        "/Applications".to_string(),
    ];
    let r = resolve_target_app_path(&None, &ancestors, false);
    assert_eq!(r.unwrap(), "/Applications/ARB.APP");
}

#[test]
fn target_falls_back_to_the_default_install() {
    let r = resolve_target_app_path(&None, &vec!["/somewhere/else".to_string()], true);
    assert_eq!(r.unwrap(), "/Applications/Arb.app");

    let r = resolve_target_app_path(&None, &vec![], false);
    assert!(matches!(r, Err(UpdateError::NoInstalledApp)));
}

#[test]
fn staged_bundle_must_exist_before_applying() {
    let marker = PendingUpdateMarker::new(
        "v0.4.0".to_string(),
        "/data/updates/pending/v0.4.0".to_string(),
        "/data/updates/pending/v0.4.0/extracted/Arb.app".to_string(),
        1_700_000_000,
    );
    assert!(apply_precheck(&marker, true).is_ok());
    match apply_precheck(&marker, false) {
        Err(UpdateError::MissingStagedApp { path }) => {
            assert_eq!(path, "/data/updates/pending/v0.4.0/extracted/Arb.app")
        }
        other => panic!("expected a missing-staged-app error, got {:?}", other),
    }
}

#[test]
fn extracted_bundle_is_found_directly_or_by_name() {
    let r = arb::update::find_arb_app("/stage/extracted", true, &vec![]);
    assert_eq!(r.unwrap(), "/stage/extracted/Arb.app");

    let entries = vec![
        "/stage/extracted/readme.txt".to_string(),
        "/stage/extracted/ARB.app".to_string(),
    ];
    let r = arb::update::find_arb_app("/stage/extracted", false, &entries);
    assert_eq!(r.unwrap(), "/stage/extracted/ARB.app");

    let r = arb::update::find_arb_app("/stage/extracted", false, &vec![]);
    assert!(r.is_none());
}

#[test]
fn downloaded_bundle_version_must_be_nonempty() {
    assert_eq!(interpret_app_version(" 0.4.0 \n").unwrap(), "0.4.0");
    assert!(matches!(
        interpret_app_version("  \n"),
        Err(UpdateError::EmptyAppVersion)
    ));
}

// ── the background checker ─────────────────────────────────

#[test]
fn check_delay_counts_down_the_interval() {
    assert_eq!(update_check_delay(86400, 10, Some(86000), false), 400);
    assert_eq!(update_check_delay(86400, 10, Some(90000), false), 10);
    assert_eq!(update_check_delay(86400, 10, None, false), 10);
    assert_eq!(update_check_delay(86400, 10, Some(0), true), 10);
}

#[test]
fn only_the_first_socket_notifies() {
    let socks = vec!["/run/gui-sock-100".to_string(), "/run/gui-sock-200".to_string()];
    assert!(is_notification_leader(&socks, "/run/gui-sock-100"));
    assert!(!is_notification_leader(&socks, "/run/gui-sock-200"));
    assert!(is_notification_leader(&vec![], "/run/gui-sock-300"));
}

#[test]
fn notification_requires_newer_release_and_leadership() {
    let socks = vec!["/run/a".to_string(), "/run/b".to_string()];
    assert!(should_notify_update("v0.4.0", "0.3.2", false, &socks, "/run/a"));
    assert!(!should_notify_update("v0.4.0", "0.3.2", false, &socks, "/run/b"));
    assert!(!should_notify_update("v0.3.2", "0.3.2", false, &socks, "/run/a"));
    // a forced UI overrides both conditions
    assert!(should_notify_update("v0.3.2", "0.3.2", true, &socks, "/run/b"));
}
