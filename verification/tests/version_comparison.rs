use arb::version::{compare_versions, is_newer_version, parse_version_numbers};
use std::cmp::Ordering;

// ── parse_version_numbers ──────────────────────────────────

#[test]
fn lib_should_parse_standard_semver() {
    assert_eq!(parse_version_numbers("1.2.3"), Some(vec![1, 2, 3]));
}

#[test]
fn lib_should_parse_lowercase_v_prefix() {
    assert_eq!(parse_version_numbers("v1.0.0"), Some(vec![1, 0, 0]));
}

#[test]
fn lib_should_parse_uppercase_v_prefix() {
    assert_eq!(parse_version_numbers("V1.2.3"), Some(vec![1, 2, 3]));
}

#[test]
fn lib_should_return_none_for_empty_string() {
    assert_eq!(parse_version_numbers(""), None);
}

#[test]
fn lib_should_return_none_for_pure_non_numeric() {
    assert_eq!(parse_version_numbers("abc"), None);
    assert_eq!(parse_version_numbers("not-a-version"), None);
}

#[test]
fn lib_should_parse_version_with_prerelease_suffix() {
    assert_eq!(parse_version_numbers("1.2.3-beta"), Some(vec![1, 2, 3]));
    assert_eq!(parse_version_numbers("0.3.2-beta"), Some(vec![0, 3, 2]));
}

#[test]
fn lib_should_parse_single_number() {
    assert_eq!(parse_version_numbers("5"), Some(vec![5]));
}

#[test]
fn lib_should_parse_four_segments() {
    assert_eq!(parse_version_numbers("1.2.3.4"), Some(vec![1, 2, 3, 4]));
}

#[test]
fn should_parse_single_date_style_segment() {
    // A bare date-style string like "20230101" parses as a single segment.
    assert_eq!(parse_version_numbers("20230101"), Some(vec![20230101]));
}

// ── compare_versions ───────────────────────────────────────

#[test]
fn should_compare_equal_versions() {
    assert_eq!(compare_versions("0.3.2", "0.3.2"), Some(Ordering::Equal));
}

#[test]
fn should_compare_greater_numeric_not_lexicographic() {
    // 10 > 9 numerically, but "10" < "9" lexicographically
    assert_eq!(compare_versions("0.3.10", "0.3.9"), Some(Ordering::Greater));
}

#[test]
fn should_compare_less() {
    assert_eq!(compare_versions("0.3.1", "0.3.2"), Some(Ordering::Less));
}

#[test]
fn should_return_none_for_garbage() {
    assert_eq!(compare_versions("foo", "bar"), None);
}

#[test]
fn lib_should_compare_equal_when_shorter_padded_with_zeros() {
    assert_eq!(compare_versions("1.0", "1.0.0"), Some(Ordering::Equal));
}

#[test]
fn lib_should_compare_greater_when_left_longer_with_nonzero() {
    assert_eq!(compare_versions("1.0.1", "1.0"), Some(Ordering::Greater));
}

#[test]
fn lib_should_compare_less_when_right_longer_with_nonzero() {
    assert_eq!(compare_versions("1.0", "1.0.1"), Some(Ordering::Less));
}

#[test]
fn lib_should_return_none_when_left_invalid() {
    assert_eq!(compare_versions("abc", "1.0"), None);
}

#[test]
fn lib_should_return_none_when_right_invalid() {
    assert_eq!(compare_versions("1.0", "xyz"), None);
}

// ── is_newer_version ───────────────────────────────────────

#[test]
fn should_return_true_when_latest_is_newer() {
    assert!(is_newer_version("0.4.0", "0.3.2"));
}

#[test]
fn should_return_false_when_versions_equal() {
    assert!(!is_newer_version("0.3.2", "0.3.2"));
    assert!(!is_newer_version("1.0.0", "1.0.0"));
}

#[test]
fn should_return_false_when_latest_is_older() {
    assert!(!is_newer_version("0.3.1", "0.3.2"));
    assert!(!is_newer_version("0.1.0", "0.2.0"));
}

#[test]
fn should_handle_v_prefix() {
    assert!(is_newer_version("v0.4.0", "0.3.2"));
    assert!(is_newer_version("v0.1.2", "0.1.1"));
    assert!(is_newer_version("V0.2.0", "v0.1.0"));
}

#[test]
fn should_handle_major_bump_beats_high_minor() {
    assert!(is_newer_version("1.0.0", "0.99.99"));
}

#[test]
fn should_compare_semver_correctly() {
    // Minor version bump
    assert!(is_newer_version("0.2.0", "0.1.99"));
    // Patch version bump
    assert!(is_newer_version("0.1.2", "0.1.1"));
}

#[test]
fn should_handle_numeric_comparison_over_lexicographic() {
    assert!(is_newer_version("0.1.10", "0.1.9"));
    assert!(!is_newer_version("0.2.0", "0.11.0"));
    assert!(!is_newer_version("0.1.1", "0.1.1"));
}

// ── date-version guard ─────────────────────────────────────

#[test]
fn lib_should_reject_date_version_vs_semver() {
    // date-version guard: date latest against semver current -> false
    assert!(!is_newer_version("20240203-110000-abc", "0.1.0"));
    assert!(!is_newer_version("20251231-235959-xyz", "0.3.2"));
    assert!(!is_newer_version("20200101-000000-000", "1.0.0"));
}

#[test]
fn lib_should_compare_two_date_versions() {
    // Both are date versions; guard does not fire, numeric compare succeeds
    assert!(is_newer_version("20240204-110000-abc", "20240203-110000-abc"));
}

// ── fallback when unparseable ──────────────────────────────

#[test]
fn lib_should_fallback_to_not_equal_when_unparseable_and_different() {
    // Neither parses -> comparison undefined -> latest != current -> true
    assert!(is_newer_version("abc", "def"));
}

#[test]
fn lib_should_fallback_to_not_equal_when_unparseable_and_same() {
    // Neither parses -> comparison undefined -> latest == current -> false
    assert!(!is_newer_version("abc", "abc"));
}

// ── the same behaviour as exercised by the GUI updater ─────

#[test]
fn semver_numeric_comparison() {
    assert!(is_newer_version("0.1.10", "0.1.9"));
    assert!(!is_newer_version("0.2.0", "0.11.0"));
    assert!(!is_newer_version("0.1.1", "0.1.1"));
    assert!(is_newer_version("v0.1.2", "0.1.1"));
}

#[test]
fn update_should_parse_standard_semver() {
    assert_eq!(parse_version_numbers("1.2.3"), Some(vec![1, 2, 3]));
}

#[test]
fn update_should_parse_lowercase_v_prefix() {
    assert_eq!(parse_version_numbers("v1.0.0"), Some(vec![1, 0, 0]));
}

#[test]
fn update_should_parse_uppercase_v_prefix() {
    assert_eq!(parse_version_numbers("V1.0.0"), Some(vec![1, 0, 0]));
}

#[test]
fn update_should_return_none_for_empty_string() {
    assert_eq!(parse_version_numbers(""), None);
}

#[test]
fn update_should_return_none_for_pure_non_numeric() {
    assert_eq!(parse_version_numbers("abc"), None);
}

#[test]
fn update_should_parse_version_with_prerelease_suffix() {
    assert_eq!(parse_version_numbers("1.2.3-beta"), Some(vec![1, 2, 3]));
}

#[test]
fn update_should_parse_single_number() {
    assert_eq!(parse_version_numbers("5"), Some(vec![5]));
}

#[test]
fn update_should_parse_four_segments() {
    assert_eq!(parse_version_numbers("1.2.3.4"), Some(vec![1, 2, 3, 4]));
}

#[test]
fn update_should_compare_equal_when_shorter_padded_with_zeros() {
    assert_eq!(compare_versions("1.0", "1.0.0"), Some(Ordering::Equal));
}

#[test]
fn update_should_compare_greater_when_left_longer_with_nonzero() {
    assert_eq!(compare_versions("1.0.1", "1.0"), Some(Ordering::Greater));
}

#[test]
fn update_should_compare_less_when_right_longer_with_nonzero() {
    assert_eq!(compare_versions("1.0", "1.0.1"), Some(Ordering::Less));
}

#[test]
fn update_should_return_none_when_left_invalid() {
    assert_eq!(compare_versions("abc", "1.0"), None);
}

#[test]
fn update_should_return_none_when_right_invalid() {
    assert_eq!(compare_versions("1.0", "xyz"), None);
}

#[test]
fn update_should_reject_date_version_vs_semver() {
    assert!(!is_newer_version("20240203-110000-abc", "0.1.0"));
}

#[test]
fn update_should_compare_two_date_versions() {
    assert!(is_newer_version("20240204-110000-abc", "20240203-110000-abc"));
}

#[test]
fn update_should_fallback_to_not_equal_when_unparseable_and_different() {
    assert!(is_newer_version("abc", "def"));
}

#[test]
fn update_should_fallback_to_not_equal_when_unparseable_and_same() {
    assert!(!is_newer_version("abc", "abc"));
}

#[test]
fn should_handle_uppercase_v_prefix_in_is_newer() {
    assert!(is_newer_version("V0.2.0", "v0.1.0"));
}

// ── antisymmetry on concrete values ────────────────────────

#[test]
fn swapping_arguments_flips_the_ordering() {
    assert_eq!(compare_versions("1.2", "2.1"), Some(Ordering::Less));
    assert_eq!(compare_versions("2.1", "1.2"), Some(Ordering::Greater));
    assert_eq!(compare_versions("3.0.0", "3.0"), Some(Ordering::Equal));
    assert_eq!(compare_versions("3.0", "3.0.0"), Some(Ordering::Equal));
}

#[test]
fn whitespace_is_trimmed_before_parsing() {
    assert_eq!(parse_version_numbers("  v0.3.2  "), Some(vec![0, 3, 2]));
}

#[test]
fn overflowing_segment_fails_to_parse() {
    // a segment larger than u64 cannot be represented
    assert_eq!(parse_version_numbers("99999999999999999999999"), None);
    // while u64::MAX itself is fine
    assert_eq!(
        parse_version_numbers("18446744073709551615.1"),
        Some(vec![18446744073709551615, 1])
    );
}
