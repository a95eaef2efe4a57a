//! Bundle identification, name resolution, and tier resolution.

use dotlnx::bundle::{
    is_lnx_bundle, resolve_bundle_by_name, user_tier_entries, Candidate, TierContext,
};
use dotlnx::config::Config;

fn config_named(name: &str) -> Config {
    Config {
        name: name.into(),
        executable: "bin/app".into(),
        args: vec![],
        env: vec![],
        working_dir: None,
        icon: None,
        comment: None,
        categories: None,
        terminal: false,
        security: None,
    }
}

#[test]
fn is_lnx_bundle_true() {
    assert!(is_lnx_bundle("/tmp/apps/foo.lnx", true));
}

#[test]
fn is_lnx_bundle_false_for_file() {
    assert!(!is_lnx_bundle("/tmp/apps/file.lnx", false));
}

#[test]
fn is_lnx_bundle_false_for_dir_without_lnx_suffix() {
    assert!(!is_lnx_bundle("/tmp/apps/plain", true));
}

#[test]
fn resolve_bundle_by_name_underscore_fallback() {
    let user = vec![Candidate {
        path: "/home/me/Applications/My App.lnx".to_string(),
        config: config_named("My App"),
    }];
    let system: Vec<Candidate> = vec![];
    let res = resolve_bundle_by_name(&user, &system, "My_App").unwrap();
    assert!(res.user_tier);
    assert_eq!(user[res.index].config.name, "My App");
    assert!(user[res.index].path.ends_with("My App.lnx"));
}

#[test]
fn resolve_exact_name_wins_over_fallback() {
    let user = vec![
        Candidate {
            path: "/home/me/Applications/a.lnx".to_string(),
            config: config_named("My App"),
        },
        Candidate {
            path: "/home/me/Applications/b.lnx".to_string(),
            config: config_named("My_App"),
        },
    ];
    let system: Vec<Candidate> = vec![];
    let res = resolve_bundle_by_name(&user, &system, "My_App").unwrap();
    assert_eq!(res.index, 1);
}

#[test]
fn resolve_user_tier_wins_over_system() {
    let user = vec![Candidate {
        path: "/home/me/Applications/app.lnx".to_string(),
        config: config_named("app"),
    }];
    let system = vec![Candidate {
        path: "/Applications/app.lnx".to_string(),
        config: config_named("app"),
    }];
    let res = resolve_bundle_by_name(&user, &system, "app").unwrap();
    assert!(res.user_tier);
    assert_eq!(res.index, 0);
}

#[test]
fn resolve_unknown_name_is_none() {
    let user: Vec<Candidate> = vec![];
    let system: Vec<Candidate> = vec![];
    assert!(resolve_bundle_by_name(&user, &system, "ghost").is_none());
}

fn base_context() -> TierContext {
    TierContext {
        is_root: false,
        sudo_user: None,
        home_dirs: vec![],
        home_dir: "/home/me".to_string(),
        apps_override: None,
        xdg_applications_dir: "/home/me/.local/share/applications".to_string(),
        user: Some("me".to_string()),
    }
}

#[test]
fn tier_entries_non_root() {
    let entries = user_tier_entries(&base_context());
    assert_eq!(entries.len(), 1);
    assert_eq!(entries[0].apps_dir, "/home/me/Applications");
    assert_eq!(entries[0].desktop_dir, "/home/me/.local/share/applications");
    assert_eq!(entries[0].username, "me");
}

#[test]
fn tier_entries_non_root_override() {
    let mut ctx = base_context();
    ctx.apps_override = Some("/custom/apps".to_string());
    let entries = user_tier_entries(&ctx);
    assert_eq!(entries.len(), 1);
    assert_eq!(entries[0].apps_dir, "/custom/apps");
}

#[test]
fn tier_entries_root_with_hint() {
    let mut ctx = base_context();
    ctx.is_root = true;
    ctx.sudo_user = Some("alice".to_string());
    let entries = user_tier_entries(&ctx);
    assert_eq!(entries.len(), 1);
    assert_eq!(entries[0].apps_dir, "/home/alice/Applications");
    assert_eq!(entries[0].desktop_dir, "/home/alice/.local/share/applications");
    assert_eq!(entries[0].username, "alice");
}

#[test]
fn tier_entries_root_hint_is_root() {
    let mut ctx = base_context();
    ctx.is_root = true;
    ctx.sudo_user = Some("root".to_string());
    let entries = user_tier_entries(&ctx);
    assert_eq!(entries.len(), 1);
    assert_eq!(entries[0].apps_dir, "/root/Applications");
}

#[test]
fn tier_entries_root_unattended_covers_all_homes() {
    let mut ctx = base_context();
    ctx.is_root = true;
    ctx.home_dirs = vec!["alice".to_string(), "bob".to_string()];
    let entries = user_tier_entries(&ctx);
    assert_eq!(entries.len(), 3);
    assert_eq!(entries[0].apps_dir, "/root/Applications");
    assert_eq!(entries[0].username, "root");
    assert_eq!(entries[1].apps_dir, "/home/alice/Applications");
    assert_eq!(entries[2].apps_dir, "/home/bob/Applications");
    assert_eq!(entries[2].desktop_dir, "/home/bob/.local/share/applications");
}
