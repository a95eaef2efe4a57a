//! Name validation, slugs, usernames, and appimage patterns.

use dotlnx::bundle::username_from_bundle_path;
use dotlnx::bundler::{derive_appimage_pattern, escape_bash_double_quoted, slugify_app_name};
use dotlnx::validate::validate_app_name;

#[test]
fn validate_app_name_ok() {
    assert!(validate_app_name("myapp").is_ok());
    assert!(validate_app_name("my-app_123").is_ok());
}

#[test]
fn validate_app_name_rejects_invalid() {
    assert!(validate_app_name("").is_err());
    assert!(validate_app_name("a/b").is_err());
    assert!(validate_app_name("a\\b").is_err());
    assert!(validate_app_name("a..b").is_err());
    assert!(validate_app_name("a;b").is_err());
    assert!(validate_app_name("a\nb").is_err());
}

#[test]
fn validate_app_name_rejects_control_chars() {
    assert!(validate_app_name("a\u{7}b").is_err());
    assert!(validate_app_name("tab\there").is_err());
}

#[test]
fn username_from_bundle_path_linux_style() {
    assert_eq!(
        username_from_bundle_path("/home/alice/Applications/myapp.lnx").as_deref(),
        Some("alice")
    );
}

#[test]
fn username_from_bundle_path_root_home() {
    assert_eq!(
        username_from_bundle_path("/root/Applications/myapp.lnx").as_deref(),
        Some("root")
    );
}

#[test]
fn username_from_bundle_path_nested_returns_parent_of_apps() {
    assert_eq!(
        username_from_bundle_path("/home/bob/Applications/foo.lnx").as_deref(),
        Some("bob")
    );
}

#[test]
fn username_from_bundle_path_too_shallow() {
    assert_eq!(username_from_bundle_path("foo.lnx"), None);
    assert_eq!(username_from_bundle_path("/a.lnx"), None);
}

#[test]
fn slugify_simple() {
    assert_eq!(slugify_app_name("My App"), "my-app");
    assert_eq!(slugify_app_name("Cursor"), "cursor");
}

#[test]
fn slugify_spaces_and_special() {
    assert_eq!(slugify_app_name("App  Name"), "app-name");
    assert_eq!(slugify_app_name("  x  "), "x");
}

#[test]
fn slugify_empty_falls_back() {
    assert_eq!(slugify_app_name("!!!"), "app");
    assert_eq!(slugify_app_name(""), "app");
}

#[test]
fn derive_pattern_version_in_middle() {
    assert_eq!(
        derive_appimage_pattern("/tmp/Cursor-0.1.0-x86_64.appimage"),
        "Cursor-*-x86_64.appimage"
    );
}

#[test]
fn derive_pattern_simple() {
    assert_eq!(derive_appimage_pattern("foo.appimage"), "*.appimage");
}

#[test]
fn derive_pattern_version_at_end() {
    assert_eq!(derive_appimage_pattern("tool-1.2.3.appimage"), "tool-*.appimage");
}

#[test]
fn derive_pattern_wrong_suffix() {
    assert_eq!(derive_appimage_pattern("/tmp/archive.tar"), "*.appimage");
}

#[test]
fn test_escape_bash_double_quoted() {
    assert_eq!(escape_bash_double_quoted("x"), "x");
    assert_eq!(escape_bash_double_quoted(r#"a"b"#), r#"a\"b"#);
    assert_eq!(escape_bash_double_quoted("a\\b"), "a\\\\b");
}
