//! Menu-entry rendering and escaping.

use dotlnx::config::Config;
use dotlnx::desktop::{
    desktop_file_name, escape_desktop_value, generate_desktop, generate_directory_entry,
    system_applications_dir, DesktopPaths,
};

fn minimal_config() -> Config {
    Config {
        name: "myapp".into(),
        executable: "bin/myapp".into(),
        args: vec![],
        env: vec![],
        working_dir: None,
        icon: None,
        comment: None,
        categories: None,
        terminal: false,
        security: None,
    }
}

fn paths_for(bundle: &str, cfg: &Config) -> DesktopPaths {
    DesktopPaths {
        exec_canonical: Some(format!("{}/{}", bundle, cfg.executable)),
        icon_canonical: None,
    }
}

#[test]
fn generate_desktop_minimal() {
    let bundle = "/tmp/apps/myapp.lnx";
    let cfg = minimal_config();
    let out = generate_desktop(&cfg, bundle, None, &paths_for(bundle, &cfg));
    assert!(out.contains("[Desktop Entry]"));
    assert!(out.contains("Name=myapp"));
    let exec_line = out.lines().find(|l| l.starts_with("Exec=")).unwrap();
    assert!(exec_line.contains("bin/myapp"), "Exec should contain bundle path: {}", exec_line);
    assert!(exec_line.ends_with("%u"));
    assert!(out.contains("Type=Application"));
}

#[test]
fn generate_desktop_with_profile_uses_aa_exec() {
    let bundle = "/tmp/apps/myapp.lnx";
    let cfg = minimal_config();
    let out = generate_desktop(
        &cfg,
        bundle,
        Some("dotlnx-user-myapp"),
        &paths_for(bundle, &cfg),
    );
    let exec_line = out.lines().find(|l| l.starts_with("Exec=")).unwrap();
    assert!(exec_line.starts_with("Exec=aa-exec -p dotlnx-user-myapp -- "));
    assert!(exec_line.contains("bin/myapp"));
}

#[test]
fn generate_desktop_escapes_exec_args() {
    let bundle = "/tmp/apps/myapp.lnx";
    let mut cfg = minimal_config();
    cfg.args = vec!["--path=/foo bar".into()];
    let out = generate_desktop(&cfg, bundle, None, &paths_for(bundle, &cfg));
    let exec_line = out.lines().find(|l| l.starts_with("Exec=")).unwrap();
    assert!(exec_line.contains("%u"));
    // An argument with a space must stay a single quoted token.
    assert!(exec_line.contains("\"--path=/foo bar\""));
    assert!(exec_line.contains("bin/myapp"));
}

#[test]
fn generate_desktop_optional_fields() {
    let bundle = "/tmp/apps/myapp.lnx";
    let mut cfg = minimal_config();
    cfg.comment = Some("A test app".into());
    cfg.icon = Some("myapp".into());
    cfg.categories = Some(vec!["Utility".into()]);
    let out = generate_desktop(&cfg, bundle, None, &paths_for(bundle, &cfg));
    assert!(out.contains("Comment=A test app"));
    assert!(out.contains("Icon=myapp"));
    assert!(out.contains("Categories=Utility"));
}

#[test]
fn generate_desktop_resolves_bundle_relative_icon() {
    let bundle = "/tmp/apps/myapp.lnx";
    let mut cfg = minimal_config();
    cfg.icon = Some("icon.png".into());
    let paths = DesktopPaths {
        exec_canonical: Some(format!("{}/bin/myapp", bundle)),
        icon_canonical: Some(format!("{}/icon.png", bundle)),
    };
    let out = generate_desktop(&cfg, bundle, None, &paths);
    let icon_line = out.lines().find(|l| l.starts_with("Icon=")).unwrap();
    // A relative path in the bundle should become absolute so the menu can
    // load it.
    assert!(icon_line.starts_with("Icon=/"), "Icon should be absolute path, got: {}", icon_line);
    assert!(icon_line.contains("icon.png"));
}

#[test]
fn generate_desktop_escapes_name_newline() {
    let bundle = "/tmp/apps/myapp.lnx";
    let mut cfg = minimal_config();
    cfg.comment = Some("line1\nline2".into());
    let out = generate_desktop(&cfg, bundle, None, &paths_for(bundle, &cfg));
    assert!(out.contains("Comment=line1\\nline2"));
}

#[test]
fn generate_desktop_terminal_flag() {
    let bundle = "/tmp/apps/myapp.lnx";
    let mut cfg = minimal_config();
    cfg.terminal = true;
    let out = generate_desktop(&cfg, bundle, None, &paths_for(bundle, &cfg));
    assert!(out.contains("Terminal=true\n"));
    cfg.terminal = false;
    let out2 = generate_desktop(&cfg, bundle, None, &paths_for(bundle, &cfg));
    assert!(!out2.contains("Terminal="));
}

#[test]
fn escape_desktop_value_controls() {
    assert_eq!(escape_desktop_value("a\\b"), "a\\\\b");
    assert_eq!(escape_desktop_value("a\tb"), "a\\tb");
    assert_eq!(escape_desktop_value("a\rb"), "a\\rb");
    assert_eq!(escape_desktop_value("a\u{7}b"), "a b");
    assert_eq!(escape_desktop_value("plain"), "plain");
}

#[test]
fn desktop_file_name_template() {
    assert_eq!(desktop_file_name("myapp"), "dotlnx-myapp.desktop");
}

#[test]
fn system_applications_dir_fixed() {
    assert_eq!(system_applications_dir(), "/usr/share/applications");
}

#[test]
fn directory_entry_only_with_icon() {
    let cfg = minimal_config();
    assert!(generate_directory_entry(&cfg, &None).is_none());
    let mut with_icon = minimal_config();
    with_icon.icon = Some("assets/icon.png".into());
    let content = generate_directory_entry(
        &with_icon,
        &Some("/tmp/apps/myapp.lnx/assets/icon.png".to_string()),
    )
    .unwrap();
    assert!(content.contains("[Desktop Entry]"));
    assert!(content.contains("Type=Directory"));
    assert!(content.contains("Name=myapp"));
    assert!(content.contains("Icon=/tmp/apps/myapp.lnx/assets/icon.png"));
}
