//! Validation results, bundling plans, uninstall plans, and launch plans.

use dotlnx::bundler;
use dotlnx::config::{Config, ManifestError, Security};
use dotlnx::launch::{run_app, LaunchError, LaunchFacts};
use dotlnx::uninstall;
use dotlnx::validate::{
    path_stays_in_bundle, path_under_bundle, validate_bundle, validate_security_path,
    BundleFacts, ContainmentError, MetadataField, NameError, PathError, SecurityPathError,
    ValidateError,
};

fn config_for(name: &str, executable: &str) -> Config {
    Config {
        name: name.into(),
        executable: executable.into(),
        args: vec![],
        env: vec![],
        working_dir: None,
        icon: None,
        comment: None,
        categories: None,
        terminal: false,
        security: None,
    }
}

fn good_facts(bundle: &str, executable: &str) -> BundleFacts {
    BundleFacts {
        is_dir: true,
        exec_exists: true,
        bundle_canonical: Some(bundle.to_string()),
        exec_canonical: Some(format!("{}/{}", bundle, executable)),
    }
}

#[test]
fn validate_bundle_ok() {
    let bundle = "/tmp/b/myapp.lnx";
    let manifest = Ok(config_for("myapp", "bin/myapp"));
    assert!(validate_bundle(bundle, &manifest, &good_facts(bundle, "bin/myapp")).is_ok());
}

#[test]
fn validate_bundle_not_lnx_dir_err() {
    let bundle = "/tmp/plaindir";
    let manifest = Ok(config_for("x", "bin/x"));
    let err = validate_bundle(bundle, &manifest, &good_facts(bundle, "bin/x")).unwrap_err();
    assert_eq!(err, ValidateError::NotLnxBundle);
}

#[test]
fn validate_bundle_missing_executable_err() {
    let bundle = "/tmp/b/myapp.lnx";
    let manifest = Ok(config_for("myapp", "bin/nonexistent"));
    let mut facts = good_facts(bundle, "bin/nonexistent");
    facts.exec_exists = false;
    facts.exec_canonical = None;
    let err = validate_bundle(bundle, &manifest, &facts).unwrap_err();
    assert_eq!(err, ValidateError::ExecutableNotFound);
}

#[test]
fn validate_bundle_bad_app_name_err() {
    let bundle = "/tmp/b/myapp.lnx";
    let manifest = Ok(config_for("bad/name", "bin/app"));
    let err = validate_bundle(bundle, &manifest, &good_facts(bundle, "bin/app")).unwrap_err();
    assert_eq!(err, ValidateError::Name(NameError::Separator));
}

#[test]
fn validate_bundle_escaping_executable_err() {
    // An executable set to "../../etc/passwd" fails validation.
    let bundle = "/tmp/b/myapp.lnx";
    let manifest = Ok(config_for("myapp", "../../etc/passwd"));
    let err =
        validate_bundle(bundle, &manifest, &good_facts(bundle, "../../etc/passwd")).unwrap_err();
    assert_eq!(err, ValidateError::ExecutablePath(PathError::ParentDir));
}

#[test]
fn validate_bundle_manifest_errors() {
    let bundle = "/tmp/b/myapp.lnx";
    let missing: Result<Config, ManifestError> = Err(ManifestError::Missing);
    let malformed: Result<Config, ManifestError> = Err(ManifestError::Malformed);
    let facts = good_facts(bundle, "bin/app");
    assert_eq!(
        validate_bundle(bundle, &missing, &facts).unwrap_err(),
        ValidateError::Manifest(ManifestError::Missing)
    );
    assert_eq!(
        validate_bundle(bundle, &malformed, &facts).unwrap_err(),
        ValidateError::Manifest(ManifestError::Malformed)
    );
}

#[test]
fn validate_bundle_containment_err() {
    let bundle = "/tmp/b/myapp.lnx";
    let manifest = Ok(config_for("myapp", "bin/app"));
    let mut facts = good_facts(bundle, "bin/app");
    facts.exec_canonical = Some("/etc/passwd".to_string());
    let err = validate_bundle(bundle, &manifest, &facts).unwrap_err();
    assert_eq!(err, ValidateError::Containment(ContainmentError::Outside));
}

#[test]
fn validate_bundle_metadata_control_chars() {
    let bundle = "/tmp/b/myapp.lnx";
    let mut cfg = config_for("myapp", "bin/app");
    cfg.comment = Some("bad\u{7}comment".into());
    let err =
        validate_bundle(bundle, &Ok(cfg), &good_facts(bundle, "bin/app")).unwrap_err();
    assert_eq!(err, ValidateError::Metadata(MetadataField::Comment));
}

#[test]
fn validate_bundle_security_path_errors() {
    let bundle = "/tmp/b/myapp.lnx";
    let mut cfg = config_for("myapp", "bin/app");
    cfg.security = Some(Security {
        confine: true,
        read_paths: vec!["/fine".into(), "/bad#comment".into()],
        write_paths: vec![],
        network: false,
        capabilities: vec![],
    });
    let err =
        validate_bundle(bundle, &Ok(cfg), &good_facts(bundle, "bin/app")).unwrap_err();
    assert_eq!(err, ValidateError::SecurityRead(1, SecurityPathError::CommentChar));
}

#[test]
fn security_path_variants() {
    assert_eq!(validate_security_path("").unwrap_err(), SecurityPathError::Empty);
    assert_eq!(validate_security_path("a#b").unwrap_err(), SecurityPathError::CommentChar);
    assert_eq!(validate_security_path("a\nb").unwrap_err(), SecurityPathError::Control);
    assert_eq!(validate_security_path("a/../b").unwrap_err(), SecurityPathError::ParentDir);
    assert!(validate_security_path("/tmp/data/**").is_ok());
}

#[test]
fn path_stays_in_bundle_variants() {
    assert_eq!(path_stays_in_bundle("").unwrap_err(), PathError::Empty);
    assert_eq!(path_stays_in_bundle("/abs").unwrap_err(), PathError::Absolute);
    assert_eq!(path_stays_in_bundle("a/../b").unwrap_err(), PathError::ParentDir);
    assert_eq!(path_stays_in_bundle("..").unwrap_err(), PathError::ParentDir);
    assert!(path_stays_in_bundle("a..b/ok").is_ok());
    assert!(path_stays_in_bundle("bin/app").is_ok());
}

#[test]
fn path_under_bundle_ok() {
    let bundle = Some("/tmp/b".to_string());
    let target = Some("/tmp/b/bin/app".to_string());
    assert!(path_under_bundle(&target, &bundle).is_ok());
}

#[test]
fn path_under_bundle_outside_err() {
    let bundle = Some("/tmp/b".to_string());
    let outside = Some("/tmp/other/file".to_string());
    assert_eq!(
        path_under_bundle(&outside, &bundle).unwrap_err(),
        ContainmentError::Outside
    );
    // A sibling whose name extends the bundle's is not inside it.
    let sibling = Some("/tmp/bc".to_string());
    assert_eq!(
        path_under_bundle(&sibling, &bundle).unwrap_err(),
        ContainmentError::Outside
    );
}

#[test]
fn run_empty_appname_bails() {
    let src = "x.appimage".to_string();
    let e = bundler::run("", Some(&src), None, "/tmp/out").unwrap_err();
    assert_eq!(e, bundler::BundlerError::EmptyName);
}

#[test]
fn run_invalid_appname_bails() {
    let src = "x.appimage".to_string();
    let e = bundler::run("bad/name", Some(&src), None, "/tmp/out").unwrap_err();
    assert_eq!(e, bundler::BundlerError::Name(NameError::Separator));
}

#[test]
fn run_requires_exactly_one_source() {
    let src = "x.appimage".to_string();
    assert_eq!(
        bundler::run("app", None, None, "/tmp/out").unwrap_err(),
        bundler::BundlerError::SourceChoice
    );
    assert_eq!(
        bundler::run("app", Some(&src), Some(&src), "/tmp/out").unwrap_err(),
        bundler::BundlerError::SourceChoice
    );
}

#[test]
fn bundle_dir_name_preserves_app_name() {
    let src = "/tmp/test.sh".to_string();
    let plan = bundler::run("Test App", None, Some(&src), "/tmp/out").unwrap();
    assert!(plan.bundle_root.ends_with("Test App.lnx"));
    assert_eq!(plan.bundle_root, "/tmp/out/Test App.lnx");
    assert_eq!(plan.dest, "/tmp/out/Test App.lnx/bin/test.sh");
    assert!(plan.run_sh.is_none());
    assert!(plan.config_toml.contains("name = \"Test App\""));
    assert!(plan.config_toml.contains("executable = \"bin/test.sh\""));
}

#[test]
fn appimage_plan_has_launcher_script() {
    let src = "/tmp/Cursor-0.1.0-x86_64.appimage".to_string();
    let plan = bundler::run("Cursor", Some(&src), None, "/tmp/out").unwrap();
    assert_eq!(plan.bundle_root, "/tmp/out/Cursor.lnx");
    assert_eq!(plan.dest, "/tmp/out/Cursor.lnx/bin/Cursor-0.1.0-x86_64.appimage");
    let sh = plan.run_sh.unwrap();
    assert!(sh.starts_with("#!/usr/bin/env bash"));
    assert!(sh.contains("APPIMAGE=\"Cursor-*-x86_64.appimage\""));
    assert!(plan.config_toml.contains("executable = \"run.sh\""));
}

#[test]
fn uninstall_plan_non_root() {
    let ctx = uninstall::UninstallContext {
        is_root: false,
        sudo_user: None,
        xdg_applications_dir: "/home/me/.local/share/applications".to_string(),
        user: Some("me".to_string()),
    };
    let plan = uninstall::run("myapp", &ctx).unwrap();
    assert_eq!(plan.user_desktop_dir, "/home/me/.local/share/applications");
    assert_eq!(
        plan.user_desktop_path,
        "/home/me/.local/share/applications/dotlnx-myapp.desktop"
    );
    assert_eq!(plan.user_profile, "dotlnx-me-myapp");
    assert!(plan.system.is_none());
}

#[test]
fn uninstall_plan_root_covers_system_tier() {
    let ctx = uninstall::UninstallContext {
        is_root: true,
        sudo_user: Some("alice".to_string()),
        xdg_applications_dir: String::new(),
        user: None,
    };
    let plan = uninstall::run("myapp", &ctx).unwrap();
    assert_eq!(plan.user_desktop_dir, "/home/alice/.local/share/applications");
    assert_eq!(plan.user_profile, "dotlnx-alice-myapp");
    let sys = plan.system.unwrap();
    assert_eq!(sys.desktop_path, "/usr/share/applications/dotlnx-myapp.desktop");
    assert_eq!(sys.profile, "dotlnx-myapp");
}

#[test]
fn uninstall_rejects_unsafe_name() {
    let ctx = uninstall::UninstallContext {
        is_root: false,
        sudo_user: None,
        xdg_applications_dir: String::new(),
        user: None,
    };
    assert_eq!(uninstall::run("a/b", &ctx).unwrap_err(), NameError::Separator);
}

fn launch_facts(bundle: &str, executable: &str) -> LaunchFacts {
    LaunchFacts {
        exec_exists: true,
        bundle_canonical: Some(bundle.to_string()),
        exec_canonical: Some(format!("{}/{}", bundle, executable)),
        working_dir_exists: false,
        working_canonical: None,
        bin_dir_exists: false,
        path_env: None,
    }
}

#[test]
fn launch_plan_minimal() {
    let bundle = "/home/me/Applications/app.lnx";
    let cfg = config_for("app", "bin/app");
    let plan = run_app(&cfg, bundle, true, "me", &launch_facts(bundle, "bin/app")).unwrap();
    assert_eq!(plan.exec_path, "/home/me/Applications/app.lnx/bin/app");
    assert_eq!(plan.cwd, bundle);
    assert!(plan.env.is_empty());
    assert_eq!(plan.profile.as_deref(), Some("dotlnx-me-app"));
}

#[test]
fn launch_parses_env_and_prepends_bin() {
    let bundle = "/home/me/Applications/app.lnx";
    let mut cfg = config_for("app", "bin/app");
    cfg.env = vec![
        "FOO=bar".to_string(),
        " SPACED = v ".to_string(),
        "novalue".to_string(),
    ];
    let mut facts = launch_facts(bundle, "bin/app");
    facts.bin_dir_exists = true;
    facts.path_env = Some("/usr/bin".to_string());
    let plan = run_app(&cfg, bundle, true, "me", &facts).unwrap();
    assert_eq!(plan.env.len(), 3);
    assert_eq!(plan.env[0], ("FOO".to_string(), "bar".to_string()));
    assert_eq!(plan.env[1], ("SPACED".to_string(), "v".to_string()));
    assert_eq!(
        plan.env[2],
        (
            "PATH".to_string(),
            "/home/me/Applications/app.lnx/bin:/usr/bin".to_string()
        )
    );
}

#[test]
fn launch_unconfined_when_opted_out() {
    let bundle = "/home/me/Applications/app.lnx";
    let mut cfg = config_for("app", "bin/app");
    cfg.security = Some(Security {
        confine: false,
        read_paths: vec![],
        write_paths: vec![],
        network: false,
        capabilities: vec![],
    });
    let plan = run_app(&cfg, bundle, true, "me", &launch_facts(bundle, "bin/app")).unwrap();
    assert!(plan.profile.is_none());
}

#[test]
fn launch_refuses_missing_or_escaping_executable() {
    let bundle = "/home/me/Applications/app.lnx";
    let cfg = config_for("app", "bin/app");
    let mut missing = launch_facts(bundle, "bin/app");
    missing.exec_exists = false;
    assert_eq!(
        run_app(&cfg, bundle, true, "me", &missing).unwrap_err(),
        LaunchError::ExecutableNotFound
    );
    let mut escaping = launch_facts(bundle, "bin/app");
    escaping.exec_canonical = Some("/etc/passwd".to_string());
    assert_eq!(
        run_app(&cfg, bundle, true, "me", &escaping).unwrap_err(),
        LaunchError::Containment(ContainmentError::Outside)
    );
}

#[test]
fn launch_uses_working_dir() {
    let bundle = "/home/me/Applications/app.lnx";
    let mut cfg = config_for("app", "bin/app");
    cfg.working_dir = Some("data".to_string());
    let mut facts = launch_facts(bundle, "bin/app");
    facts.working_dir_exists = true;
    facts.working_canonical = Some(format!("{}/data", bundle));
    let plan = run_app(&cfg, bundle, true, "me", &facts).unwrap();
    assert_eq!(plan.cwd, "/home/me/Applications/app.lnx/data");
}
