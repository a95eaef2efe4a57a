//! Validating a path of bundles, and the whole-pass entry point.

use dotlnx::config::Config;
use dotlnx::desktop::DesktopPaths;
use dotlnx::sync::{run as sync_run, BundleObservation, Tier, TierInput};
use dotlnx::validate::{run as validate_run, BundleFacts, ValidateError, ValidateRunError};

fn observed(bundle_path: &str, name: &str, executable: &str) -> BundleObservation {
    let exec = format!("{}/{}", bundle_path, executable);
    BundleObservation {
        path: bundle_path.to_string(),
        manifest: Ok(Config {
            name: name.into(),
            executable: executable.into(),
            args: vec![],
            env: vec![],
            working_dir: None,
            icon: None,
            comment: None,
            categories: None,
            terminal: false,
            security: None,
        }),
        facts: BundleFacts {
            is_dir: true,
            exec_exists: true,
            bundle_canonical: Some(bundle_path.to_string()),
            exec_canonical: Some(exec.clone()),
        },
        desktop_paths: DesktopPaths { exec_canonical: Some(exec), icon_canonical: None },
    }
}

#[test]
fn validate_run_missing_path() {
    let bundles: Vec<BundleObservation> = vec![];
    assert_eq!(
        validate_run(false, false, &bundles).unwrap_err(),
        ValidateRunError::PathMissing
    );
}

#[test]
fn validate_run_not_a_directory() {
    let bundles: Vec<BundleObservation> = vec![];
    assert_eq!(
        validate_run(true, false, &bundles).unwrap_err(),
        ValidateRunError::NotBundleOrDir
    );
}

#[test]
fn validate_run_no_bundles() {
    let bundles: Vec<BundleObservation> = vec![];
    assert_eq!(
        validate_run(true, true, &bundles).unwrap_err(),
        ValidateRunError::NoBundles
    );
}

#[test]
fn validate_run_reports_first_failure() {
    let good = observed("/tmp/apps/good.lnx", "good", "bin/app");
    let bad = observed("/tmp/apps/bad.lnx", "bad;name", "bin/app");
    let bundles = vec![good, bad];
    match validate_run(true, true, &bundles).unwrap_err() {
        ValidateRunError::Bundle(i, e) => {
            assert_eq!(i, 1);
            assert!(matches!(e, ValidateError::Name(_)));
        }
        other => panic!("unexpected error: {:?}", other),
    }
}

#[test]
fn validate_run_all_good() {
    let bundles = vec![
        observed("/tmp/apps/a.lnx", "a", "bin/app"),
        observed("/tmp/apps/b.lnx", "b", "bin/app"),
    ];
    assert!(validate_run(true, true, &bundles).is_ok());
}

#[test]
fn sync_run_skips_absent_roots() {
    let present = TierInput {
        tier: Tier::User("me".to_string()),
        apps_dir_exists: true,
        desktop_dir: "/home/me/.local/share/applications".to_string(),
        desktop_dir_exists: false,
        bundles: vec![observed("/home/me/Applications/a.lnx", "a", "bin/app")],
        existing_desktop_files: vec![],
        gio_available: false,
        user_runtime: None,
        bus_available: false,
    };
    let absent = TierInput {
        tier: Tier::System,
        apps_dir_exists: false,
        desktop_dir: "/usr/share/applications".to_string(),
        desktop_dir_exists: true,
        bundles: vec![],
        existing_desktop_files: vec![],
        gio_available: false,
        user_runtime: None,
        bus_available: false,
    };
    let plans = sync_run(&vec![present, absent], false, false);
    assert_eq!(plans.len(), 1);
    assert_eq!(plans[0].installs.len(), 1);
    assert_eq!(plans[0].installs[0].app_name, "a");
}
