use openclaw_linux::desktop_integration::{
    desktop_entry, icon_candidates, icon_install_dirs, shell_escape, should_integrate,
    system_desktop_entry, user_data_dir, APP_ID,
};

#[test]
fn shell_escape_quotes_paths_with_spaces() {
    assert_eq!(shell_escape("/tmp/a"), "/tmp/a");
    assert_eq!(shell_escape("/tmp/a b"), "\"/tmp/a b\"");
}

#[test]
fn shell_escape_escapes_inner_quotes() {
    assert_eq!(shell_escape("/tmp/a\"b"), "\"/tmp/a\\\"b\"");
    assert_eq!(shell_escape("/tmp/a\tb"), "\"/tmp/a\tb\"");
}

#[test]
fn desktop_entry_text() {
    let entry = desktop_entry("/opt/open claw/app");
    assert!(entry.starts_with("[Desktop Entry]\nType=Application\n"));
    assert!(entry.contains("\nExec=\"/opt/open claw/app\" %U\n"));
    assert!(entry.ends_with("StartupNotify=true\n"));
    assert_eq!(APP_ID, "ai.openclaw.linux");
    assert_eq!(system_desktop_entry(), "/usr/share/applications/ai.openclaw.linux.desktop");
}

#[test]
fn integration_paths() {
    assert!(should_integrate(false, false));
    assert!(!should_integrate(true, false));
    assert!(!should_integrate(false, true));
    assert_eq!(user_data_dir(Some("/home/u"), ".local/share/applications"), Ok("/home/u/.local/share/applications".to_string()));
    assert_eq!(user_data_dir(None, "x"), Err("HOME is not set".to_string()));
    let dirs = icon_install_dirs("/home/u/.local/share/icons/hicolor");
    assert_eq!(dirs[0], "/home/u/.local/share/icons/hicolor/32x32/apps");
    assert_eq!(dirs[3], "/home/u/.local/share/icons/hicolor/512x512/apps");
    let icons = icon_candidates(Some("/repo"), Some("/opt/bin"));
    assert_eq!(icons.len(), 4);
    assert_eq!(icons[0], "/repo/apps/linux/openclaw-app/src-tauri/icons/icon.png");
    assert_eq!(icons[1], "/opt/bin/icons/icon.png");
}
