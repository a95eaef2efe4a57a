//! Sync planning: installs, reconciliation, idempotence, and the
//! elevated-tier profile work.

use dotlnx::config::{Config, ManifestError, Security};
use dotlnx::desktop::DesktopPaths;
use dotlnx::sync::{sync_dir, BundleObservation, ProfileAction, Tier, TierInput};
use dotlnx::validate::BundleFacts;

fn config_for(name: &str, executable: &str) -> Config {
    Config {
        name: name.into(),
        executable: executable.into(),
        args: vec![],
        env: vec![],
        working_dir: None,
        icon: None,
        comment: None,
        categories: None,
        terminal: false,
        security: None,
    }
}

fn observed(bundle_path: &str, cfg: Config) -> BundleObservation {
    let exec = format!("{}/{}", bundle_path, cfg.executable);
    BundleObservation {
        path: bundle_path.to_string(),
        manifest: Ok(cfg),
        facts: BundleFacts {
            is_dir: true,
            exec_exists: true,
            bundle_canonical: Some(bundle_path.to_string()),
            exec_canonical: Some(exec.clone()),
        },
        desktop_paths: DesktopPaths { exec_canonical: Some(exec), icon_canonical: None },
    }
}

fn tier_input(tier: Tier, bundles: Vec<BundleObservation>, existing: Vec<String>) -> TierInput {
    TierInput {
        tier,
        apps_dir_exists: true,
        desktop_dir: "/home/kevin/.local/share/applications".to_string(),
        desktop_dir_exists: true,
        bundles,
        existing_desktop_files: existing,
        gio_available: false,
        user_runtime: None,
        bus_available: false,
    }
}

#[test]
fn sync_end_to_end_elevated() {
    // A bundle named "hello-world 2" with executable "bin/app" and no
    // security section, synced elevated for kevin.
    let bundle = "/home/kevin/Applications/hello-world 2.lnx";
    let t = tier_input(
        Tier::User("kevin".to_string()),
        vec![observed(bundle, config_for("hello-world 2", "bin/app"))],
        vec![],
    );
    let plan = sync_dir(&t, false, true);
    assert_eq!(plan.installs.len(), 1);
    assert_eq!(plan.removals.len(), 0);
    let install = &plan.installs[0];
    assert_eq!(install.app_name, "hello-world 2");
    assert_eq!(
        install.desktop_path,
        "/home/kevin/.local/share/applications/dotlnx-hello-world 2.desktop"
    );
    let exec_line = install
        .desktop_content
        .lines()
        .find(|l| l.starts_with("Exec="))
        .unwrap();
    // Confined: the command goes through the profile loader, invokes the
    // absolute executable path, and ends with the placeholder token.
    assert!(exec_line.starts_with("Exec=aa-exec -p dotlnx-kevin-hello-world_2 -- "));
    assert!(exec_line.contains("/home/kevin/Applications/hello-world 2.lnx/bin/app"));
    assert!(exec_line.ends_with("%u"));
    match &install.profile {
        Some(ProfileAction::Load { name, content }) => {
            assert_eq!(name, "dotlnx-kevin-hello-world_2");
            // The profile's execute rule names the same absolute path,
            // quoted because it holds a space.
            assert!(content
                .contains("\"/home/kevin/Applications/hello-world 2.lnx/bin/app\" ix,"));
        }
        other => panic!("expected a profile load, got {:?}", other.is_some()),
    }
    assert_eq!(install.chown_desktop_to.as_deref(), Some("kevin"));
}

#[test]
fn sync_not_elevated_plans_no_profile() {
    let bundle = "/home/kevin/Applications/app.lnx";
    let t = tier_input(
        Tier::User("kevin".to_string()),
        vec![observed(bundle, config_for("app", "bin/app"))],
        vec![],
    );
    let plan = sync_dir(&t, false, false);
    assert_eq!(plan.installs.len(), 1);
    assert!(plan.installs[0].profile.is_none());
    assert!(plan.installs[0].chown_desktop_to.is_none());
    let exec_line = plan.installs[0]
        .desktop_content
        .lines()
        .find(|l| l.starts_with("Exec="))
        .unwrap();
    assert!(!exec_line.contains("aa-exec"));
}

#[test]
fn sync_confine_false_plans_unload() {
    let bundle = "/home/kevin/Applications/electron.lnx";
    let mut cfg = config_for("electron", "bin/app");
    cfg.security = Some(Security {
        confine: false,
        read_paths: vec![],
        write_paths: vec![],
        network: false,
        capabilities: vec![],
    });
    let t = tier_input(Tier::User("kevin".to_string()), vec![observed(bundle, cfg)], vec![]);
    let plan = sync_dir(&t, false, true);
    assert_eq!(plan.installs.len(), 1);
    match &plan.installs[0].profile {
        Some(ProfileAction::Unload { name }) => {
            assert_eq!(name, "dotlnx-kevin-electron");
        }
        _ => panic!("expected an unload"),
    }
    // Unconfined: the menu entry does not go through the profile loader.
    assert!(!plan.installs[0].desktop_content.contains("aa-exec"));
}

#[test]
fn sync_skips_invalid_bundle_but_keeps_others() {
    let good = observed(
        "/home/kevin/Applications/good.lnx",
        config_for("good", "bin/app"),
    );
    // An executable that tries to climb out of the bundle fails validation
    // and is never installed.
    let bad = observed(
        "/home/kevin/Applications/bad.lnx",
        config_for("bad", "../../etc/passwd"),
    );
    let t = tier_input(Tier::User("kevin".to_string()), vec![bad, good], vec![]);
    let plan = sync_dir(&t, false, true);
    assert_eq!(plan.installs.len(), 1);
    assert_eq!(plan.installs[0].app_name, "good");
}

#[test]
fn sync_missing_manifest_skips_bundle() {
    let mut obs = observed(
        "/home/kevin/Applications/broken.lnx",
        config_for("broken", "bin/app"),
    );
    obs.manifest = Err(ManifestError::Missing);
    let t = tier_input(Tier::User("kevin".to_string()), vec![obs], vec![]);
    let plan = sync_dir(&t, false, true);
    assert_eq!(plan.installs.len(), 0);
}

#[test]
fn sync_reconciles_stale_entry() {
    // Removing a bundle and re-running deletes its menu entry and unloads
    // its profile, but leaves unrelated apps untouched.
    let keep = observed(
        "/home/kevin/Applications/keep.lnx",
        config_for("keep", "bin/app"),
    );
    let t = tier_input(
        Tier::User("kevin".to_string()),
        vec![keep],
        vec![
            "dotlnx-keep.desktop".to_string(),
            "dotlnx-gone.desktop".to_string(),
            "unrelated.desktop".to_string(),
            "notes.txt".to_string(),
        ],
    );
    let plan = sync_dir(&t, false, true);
    assert_eq!(plan.removals.len(), 1);
    let removal = &plan.removals[0];
    assert_eq!(removal.app_name, "gone");
    assert_eq!(
        removal.desktop_path,
        "/home/kevin/.local/share/applications/dotlnx-gone.desktop"
    );
    assert_eq!(removal.unload_profile.as_deref(), Some("dotlnx-kevin-gone"));
}

#[test]
fn sync_reconcile_skips_unsafe_embedded_name() {
    let t = tier_input(
        Tier::User("kevin".to_string()),
        vec![],
        vec!["dotlnx-a;b.desktop".to_string()],
    );
    let plan = sync_dir(&t, false, true);
    assert_eq!(plan.removals.len(), 0);
}

#[test]
fn sync_dry_run_removes_nothing() {
    let t = tier_input(
        Tier::User("kevin".to_string()),
        vec![],
        vec!["dotlnx-gone.desktop".to_string()],
    );
    let plan = sync_dir(&t, true, true);
    assert_eq!(plan.removals.len(), 0);
}

#[test]
fn sync_twice_is_idempotent() {
    // A second pass over unchanged bundles, with the menu directory holding
    // exactly what the first pass installed, plans identical artifacts and
    // removes nothing.
    let bundle = "/home/kevin/Applications/app.lnx";
    let t1 = tier_input(
        Tier::User("kevin".to_string()),
        vec![observed(bundle, config_for("app", "bin/app"))],
        vec![],
    );
    let p1 = sync_dir(&t1, false, true);
    let installed: Vec<String> = p1
        .installs
        .iter()
        .map(|a| format!("dotlnx-{}.desktop", a.app_name))
        .collect();
    let t2 = tier_input(
        Tier::User("kevin".to_string()),
        vec![observed(bundle, config_for("app", "bin/app"))],
        installed,
    );
    let p2 = sync_dir(&t2, false, true);
    assert_eq!(p2.installs.len(), p1.installs.len());
    assert_eq!(p2.installs[0].desktop_content, p1.installs[0].desktop_content);
    assert_eq!(p2.installs[0].desktop_path, p1.installs[0].desktop_path);
    assert_eq!(p2.removals.len(), 0);
}

#[test]
fn sync_system_tier_profile_name() {
    let bundle = "/Applications/tool.lnx";
    let t = TierInput {
        tier: Tier::System,
        apps_dir_exists: true,
        desktop_dir: "/usr/share/applications".to_string(),
        desktop_dir_exists: true,
        bundles: vec![observed(bundle, config_for("tool", "bin/tool"))],
        existing_desktop_files: vec![],
        gio_available: false,
        user_runtime: None,
        bus_available: false,
    };
    let plan = sync_dir(&t, false, true);
    assert_eq!(plan.installs.len(), 1);
    match &plan.installs[0].profile {
        Some(ProfileAction::Load { name, .. }) => assert_eq!(name, "dotlnx-tool"),
        _ => panic!("expected a profile load"),
    }
    assert!(plan.installs[0].chown_desktop_to.is_none());
}

#[test]
fn sync_plans_folder_icon_command() {
    let bundle = "/home/kevin/Applications/app.lnx";
    let mut cfg = config_for("app", "bin/app");
    cfg.icon = Some("assets/icon.png".into());
    let mut obs = observed(bundle, cfg);
    obs.desktop_paths.icon_canonical =
        Some("/home/kevin/Applications/app.lnx/assets/icon.png".to_string());
    let mut t = tier_input(Tier::User("kevin".to_string()), vec![obs], vec![]);
    t.gio_available = true;
    t.user_runtime = Some("/run/user/1000".to_string());
    t.bus_available = true;
    let plan = sync_dir(&t, false, true);
    let cmd = plan.installs[0].folder_icon_command.as_ref().unwrap();
    assert_eq!(cmd[0], "runuser");
    assert!(cmd.contains(&"DBUS_SESSION_BUS_ADDRESS=unix:path=/run/user/1000/bus".to_string()));
    assert!(cmd.contains(&"/usr/bin/gio".to_string()));
    assert_eq!(
        cmd.last().unwrap(),
        "file:///home/kevin/Applications/app.lnx/assets/icon.png"
    );
    assert!(plan.installs[0].directory_file.is_some());
    assert_eq!(plan.installs[0].chown_directory_to.as_deref(), Some("kevin"));
}
