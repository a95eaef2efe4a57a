//! Profile naming and confinement-profile rendering.

use dotlnx::apparmor::{
    generate_profile, profile_name_system, profile_name_user,
};
use dotlnx::config::{Config, Security};

fn minimal_config() -> Config {
    Config {
        name: "myapp".into(),
        executable: "bin/myapp".into(),
        args: vec![],
        env: vec![],
        working_dir: None,
        icon: None,
        comment: None,
        categories: None,
        terminal: false,
        security: None,
    }
}

#[test]
fn profile_name_user_format() {
    assert_eq!(profile_name_user("alice", "myapp"), "dotlnx-alice-myapp");
}

#[test]
fn profile_name_user_sanitizes() {
    assert_eq!(profile_name_user("user@host", "app.name"), "dotlnx-user_host-app_name");
}

#[test]
fn profile_name_user_spaces_become_underscores() {
    // Names with spaces (e.g. "hello-world 2") must produce a single profile
    // name used by both sync and run.
    assert_eq!(profile_name_user("kevin", "hello-world 2"), "dotlnx-kevin-hello-world_2");
}

#[test]
fn profile_name_system_format() {
    assert_eq!(profile_name_system("myapp"), "dotlnx-myapp");
}

#[test]
fn generate_profile_minimal() {
    let bundle = "/tmp/apps/myapp.lnx";
    let cfg = minimal_config();
    let out = generate_profile(bundle, &cfg, "dotlnx-myapp");
    assert!(out.contains("profile dotlnx-myapp {"));
    assert!(out.contains("# dotlnx generated profile for myapp"));
    assert!(out.contains("ix,"));
    assert!(out.contains("** rm,"));
    assert!(out.contains("/usr/lib/** rm,"));
}

#[test]
fn generate_profile_with_security() {
    let mut cfg = minimal_config();
    cfg.security = Some(Security {
        confine: true,
        read_paths: vec!["/tmp/read".into()],
        write_paths: vec!["/tmp/write".into()],
        network: true,
        capabilities: vec![],
    });
    let out = generate_profile("/tmp/apps/myapp.lnx", &cfg, "dotlnx-myapp");
    assert!(out.contains("/tmp/read r,"));
    assert!(out.contains("/tmp/write rw,"));
    assert!(out.contains("network inet stream"));
}

#[test]
fn generate_profile_skips_empty_sanitized_paths() {
    let mut cfg = minimal_config();
    cfg.security = Some(Security {
        confine: true,
        read_paths: vec!["###".into(), "/valid".into()],
        write_paths: vec![],
        network: false,
        capabilities: vec![],
    });
    let out = generate_profile("/tmp/apps/myapp.lnx", &cfg, "dotlnx-myapp");
    assert!(out.contains("/valid r,"));
    assert!(!out.contains("r,\n  r,"));
}

#[test]
fn generate_profile_quotes_paths_with_spaces() {
    // A bundle path with a space (e.g. "hello-world 2.lnx") must be quoted
    // for the profile lexer.
    let bundle_with_space = "/tmp/apps/hello world";
    let cfg = minimal_config();
    let out = generate_profile(bundle_with_space, &cfg, "dotlnx-myapp");
    assert!(
        out.contains("\"/") && out.contains("hello world") && out.contains("\" ix,"),
        "exec path with space should be quoted: {}",
        out.lines().take(10).collect::<Vec<_>>().join("\n")
    );
    assert!(
        out.contains("\"/") && out.contains("hello world") && out.contains("/**\" rm,"),
        "bundle path with space should be quoted"
    );
}

#[test]
fn generate_profile_strips_comment_injection() {
    let mut cfg = minimal_config();
    cfg.security = Some(Security {
        confine: true,
        read_paths: vec!["/etc/passwd # sneak".into()],
        write_paths: vec![],
        network: false,
        capabilities: vec![],
    });
    let out = generate_profile("/tmp/apps/myapp.lnx", &cfg, "dotlnx-myapp");
    assert!(out.contains("/etc/passwd r,"));
    assert!(!out.contains("sneak"));
}

#[test]
fn generate_profile_no_network_rules_by_default() {
    let out = generate_profile("/tmp/apps/myapp.lnx", &minimal_config(), "dotlnx-myapp");
    assert!(!out.contains("network inet"));
}
