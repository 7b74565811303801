use sidecar_supervisor::version::{
    is_update_available, resolve_version, version_from_output, ParsedVersion,
};

#[test]
fn version_is_last_dotted_word() {
    assert_eq!(version_from_output("opencode 1.4.2"), "1.4.2");
    assert_eq!(version_from_output("  opencode-cli 0.1.0\n"), "0.1.0");
    assert_eq!(version_from_output("0.2.3"), "0.2.3");
}

#[test]
fn version_without_dot_is_trimmed_output() {
    assert_eq!(version_from_output("  nightly build \n"), "nightly build");
    assert_eq!(version_from_output("dev"), "dev");
    assert_eq!(version_from_output(" \t\n"), "");
    assert_eq!(version_from_output(""), "");
}

#[test]
fn version_dot_only_in_earlier_word() {
    assert_eq!(version_from_output("v1.2 build"), "v1.2 build");
}

#[test]
fn version_of_missing_binary_is_sentinel() {
    assert_eq!(resolve_version(false, true, "opencode 1.4.2"), "0.0.0");
}

#[test]
fn version_of_failed_query_is_sentinel() {
    assert_eq!(resolve_version(true, false, "opencode 1.4.2"), "0.0.0");
}

#[test]
fn version_of_installed_binary() {
    assert_eq!(resolve_version(true, true, "opencode 1.4.2\n"), "1.4.2");
    assert_eq!(resolve_version(true, true, "unknown"), "unknown");
}

#[test]
fn update_available_semver_cases() {
    assert!(is_update_available("1.2.0", "1.3.0"));
    assert!(!is_update_available("1.3.0", "1.2.0"));
    assert!(!is_update_available("1.2.0", "1.2.0"));
}

#[test]
fn update_available_non_semver_fallback() {
    assert!(is_update_available("0.0.0", "nightly-build-7"));
    assert!(!is_update_available("nightly-build-7", "nightly-build-7"));
}

#[test]
fn update_available_sentinel_latest_is_never_an_update() {
    assert!(!is_update_available("nightly-build-7", "0.0.0"));
}

#[test]
fn update_available_strips_leading_v() {
    assert!(is_update_available("1.2.0", "v1.3.0"));
    assert!(!is_update_available("v1.2.0", "1.2.0"));
    assert!(is_update_available("v1.9.0", "v1.10.0"));
}

#[test]
fn update_available_prerelease_orders_before_release() {
    assert!(is_update_available("1.3.0-beta.1", "1.3.0"));
    assert!(!is_update_available("1.3.0", "1.3.0-beta.1"));
}

#[test]
fn parsed_version_accepts_only_semver() {
    assert!(ParsedVersion::parse("1.2.3").is_some());
    assert!(ParsedVersion::parse("1.2").is_none());
    assert!(ParsedVersion::parse("nightly").is_none());
}
