use arb::config_cmd::{
    editor_invocation, minimal_user_config_template, resolve_user_config_path, EditorDecision,
};
use arb::init::{
    escape_for_double_quotes, resolve_preferred_arb_bin, setup_script_candidates, wrapper_path,
};
use arb::paths::{config_home, zshrc_path};

// ── escape_for_double_quotes ───────────────────────────────

#[test]
fn escape_should_handle_normal_path() {
    assert_eq!(
        escape_for_double_quotes("/Applications/Arb.app/Contents/MacOS/arb"),
        "/Applications/Arb.app/Contents/MacOS/arb"
    );
}

#[test]
fn escape_should_escape_backslash() {
    assert_eq!(escape_for_double_quotes("a\\b"), "a\\\\b");
}

#[test]
fn escape_should_escape_double_quote() {
    assert_eq!(escape_for_double_quotes("a\"b"), "a\\\"b");
}

#[test]
fn escape_should_escape_dollar_sign() {
    assert_eq!(escape_for_double_quotes("a$b"), "a\\$b");
}

#[test]
fn escape_should_escape_backtick() {
    assert_eq!(escape_for_double_quotes("a`b"), "a\\`b");
}

#[test]
fn escape_should_handle_path_with_spaces() {
    assert_eq!(escape_for_double_quotes("/path/with spaces/file"), "/path/with spaces/file");
}

#[test]
fn escape_should_handle_multiple_special_chars() {
    assert_eq!(
        escape_for_double_quotes("$HOME/`test`/\"file\""),
        "\\$HOME/\\`test\\`/\\\"file\\\""
    );
}

#[test]
fn escape_should_handle_empty_string() {
    assert_eq!(escape_for_double_quotes(""), "");
}

// ── wrapper_path ───────────────────────────────────────────

#[test]
fn should_place_wrapper_under_config_arb_zsh_bin() {
    let path = wrapper_path("/home/user");
    assert!(
        path.ends_with(".config/arb/zsh/bin/arb"),
        "wrapper path should end with .config/arb/zsh/bin/arb, got: {}",
        path
    );
}

#[test]
fn should_derive_wrapper_path_from_home_dir() {
    let path = wrapper_path("/home/user");
    assert!(path.starts_with("/home/user"), "wrapper path should start with the home directory");
}

// ── setup_script_candidates ────────────────────────────────

#[test]
fn candidates_keep_their_search_order() {
    let candidates = setup_script_candidates(
        &Some("/work".to_string()),
        &Some("/Applications/Arb.app/Contents".to_string()),
        "/home/user",
    );
    assert_eq!(
        candidates,
        vec![
            "/work/assets/shell-integration/setup_zsh.sh".to_string(),
            "/Applications/Arb.app/Contents/Resources/setup_zsh.sh".to_string(),
            "/Applications/Arb.app/Contents/Resources/setup_zsh.sh".to_string(),
            "/home/user/Applications/Arb.app/Contents/Resources/setup_zsh.sh".to_string(),
        ]
    );

    let minimal = setup_script_candidates(&None, &None, "/home/user");
    assert_eq!(minimal.len(), 2);
    assert!(minimal.iter().all(|c| c.ends_with("setup_zsh.sh")));
}

// ── resolve_preferred_arb_bin ──────────────────────────────

#[test]
fn preferred_bin_prefers_the_env_override() {
    let r = resolve_preferred_arb_bin(
        &Some("/custom/arb".to_string()),
        true,
        &Some("/elsewhere/arb".to_string()),
        true,
        true,
        true,
        "/home/user",
    );
    assert_eq!(r.unwrap(), "/custom/arb");
}

#[test]
fn preferred_bin_falls_back_through_the_candidates() {
    // a missing override is skipped; the running executable named arb wins
    let r = resolve_preferred_arb_bin(
        &Some("/custom/arb".to_string()),
        false,
        &Some("/somewhere/ARB".to_string()),
        true,
        true,
        false,
        "/home/user",
    );
    assert_eq!(r.unwrap(), "/somewhere/ARB");

    // an executable not named arb is skipped
    let r = resolve_preferred_arb_bin(
        &None,
        false,
        &Some("/somewhere/cargo".to_string()),
        true,
        true,
        false,
        "/home/user",
    );
    assert_eq!(r.unwrap(), "/Applications/Arb.app/Contents/MacOS/arb");

    let r = resolve_preferred_arb_bin(&None, false, &None, false, false, true, "/home/user");
    assert_eq!(r.unwrap(), "/home/user/Applications/Arb.app/Contents/MacOS/arb");

    let r = resolve_preferred_arb_bin(&None, false, &None, false, false, false, "/home/user");
    assert!(r.is_none());
}

// ── user config path and template ──────────────────────────

#[test]
fn config_path_uses_the_first_config_dir() {
    let dirs = vec!["/etc/arb".to_string(), "/other".to_string()];
    assert_eq!(resolve_user_config_path(&dirs, "/home/user"), "/etc/arb/arb.lua");
    assert_eq!(
        resolve_user_config_path(&vec![], "/home/user"),
        "/home/user/.config/arb/arb.lua"
    );
}

#[test]
fn template_contains_version_marker() {
    let template = minimal_user_config_template();
    assert!(
        template.starts_with("-- arb config template v1"),
        "template must begin with version marker"
    );
}

#[test]
fn template_ends_with_return_config() {
    let template = minimal_user_config_template();
    let trimmed = template.trim_end();
    assert!(trimmed.ends_with("return config"), "template must end with `return config`");
}

#[test]
fn template_contains_required_sections() {
    let template = minimal_user_config_template();
    let required_sections = [
        "\u{2550}\u{2550}\u{2550} Appearance \u{2550}\u{2550}\u{2550}",
        "\u{2550}\u{2550}\u{2550} Terminal Behavior \u{2550}\u{2550}\u{2550}",
        "\u{2550}\u{2550}\u{2550} AI Coding Workflow \u{2550}\u{2550}\u{2550}",
        "\u{2550}\u{2550}\u{2550} Panes & Splits \u{2550}\u{2550}\u{2550}",
        "\u{2550}\u{2550}\u{2550} Advanced \u{2550}\u{2550}\u{2550}",
    ];
    for section in &required_sections {
        assert!(
            template.contains(section),
            "template must contain section header: {}",
            section
        );
    }
}

#[test]
fn template_preserves_wezterm_require() {
    let template = minimal_user_config_template();
    assert!(
        template.contains("local wezterm = require 'wezterm'"),
        "template must keep the wezterm require line"
    );
}

// ── the editor decision ────────────────────────────────────

#[test]
fn editor_value_is_split_into_words() {
    match editor_invocation(&Some("code --wait".to_string())) {
        EditorDecision::Launch { program, args } => {
            assert_eq!(program, "code");
            assert_eq!(args, vec!["--wait".to_string()]);
        }
        other => panic!("expected a launch decision, got {:?}", other),
    }
}

#[test]
fn editor_value_respects_shell_quoting() {
    match editor_invocation(&Some("'/usr/local/bin/my editor' -n".to_string())) {
        EditorDecision::Launch { program, args } => {
            assert_eq!(program, "/usr/local/bin/my editor");
            assert_eq!(args, vec!["-n".to_string()]);
        }
        other => panic!("expected a launch decision, got {:?}", other),
    }
}

#[test]
fn unset_or_blank_editor_means_no_editor() {
    assert!(matches!(editor_invocation(&None), EditorDecision::NoEditor));
    assert!(matches!(
        editor_invocation(&Some("   ".to_string())),
        EditorDecision::NoEditor
    ));
}

#[test]
fn mismatched_quotes_make_the_editor_invalid() {
    match editor_invocation(&Some("vim 'unclosed".to_string())) {
        EditorDecision::Invalid { editor } => assert_eq!(editor, "vim 'unclosed"),
        other => panic!("expected an invalid decision, got {:?}", other),
    }
}

// ── well-known paths ───────────────────────────────────────

#[test]
fn config_home_is_under_the_home_dir() {
    assert_eq!(config_home("/home/user"), "/home/user/.config/arb");
}

#[test]
fn zshrc_respects_zdotdir() {
    assert_eq!(zshrc_path("/home/user", &None), "/home/user/.zshrc");
    assert_eq!(
        zshrc_path("/home/user", &Some("/custom/zsh".to_string())),
        "/custom/zsh/.zshrc"
    );
}

#[test]
fn should_return_at_least_two_static_candidates() {
    // The two well-known static paths are always appended, whatever the
    // environment contributes.
    let candidates = setup_script_candidates(&None, &None, "/home/user");
    assert!(
        candidates.len() >= 2,
        "expected at least 2 candidates, got {}",
        candidates.len()
    );
}

#[test]
fn should_include_global_applications_candidate() {
    let candidates = setup_script_candidates(&None, &None, "/home/user");
    let global = "/Applications/Arb.app/Contents/Resources/setup_zsh.sh".to_string();
    assert!(
        candidates.contains(&global),
        "candidates should include the global /Applications path"
    );
}

#[test]
fn should_include_user_applications_candidate() {
    let candidates = setup_script_candidates(&None, &None, "/home/user");
    let user = "/home/user/Applications/Arb.app/Contents/Resources/setup_zsh.sh".to_string();
    assert!(
        candidates.contains(&user),
        "candidates should include the ~/Applications path"
    );
}

#[test]
fn should_include_cwd_candidate_when_cwd_is_available() {
    let candidates =
        setup_script_candidates(&Some("/work".to_string()), &None, "/home/user");
    assert!(
        candidates.contains(&"/work/assets/shell-integration/setup_zsh.sh".to_string()),
        "candidates should include the cwd-relative path"
    );
}

#[test]
fn should_have_all_candidates_ending_with_setup_zsh_sh() {
    let candidates = setup_script_candidates(
        &Some("/work".to_string()),
        &Some("/app/Contents".to_string()),
        "/home/user",
    );
    for c in &candidates {
        assert!(
            c.ends_with("setup_zsh.sh"),
            "every candidate should end with setup_zsh.sh, got: {}",
            c
        );
    }
}
