use openclaw_linux::canvas_snapshot::png_base64_from_data_url;
use openclaw_linux::cli_install::{install_shell_command, resolve_openclaw_bin, shell_escape};
use openclaw_linux::tray_status::{format_tray_tooltip, format_tray_tooltip_health};

#[test]
fn parses_standard_png_data_url() {
    assert_eq!(
        png_base64_from_data_url("data:image/png;base64,abc123"),
        Some("abc123".into())
    );
}

#[test]
fn parses_quoted_and_charset_variants() {
    assert_eq!(
        png_base64_from_data_url(r#""data:image/png;charset=utf-8;base64,xyz""#),
        Some("xyz".into())
    );
}

#[test]
fn rejects_empty_or_non_png() {
    assert_eq!(png_base64_from_data_url("data:image/png;base64,"), None);
    assert_eq!(png_base64_from_data_url("data:image/jpeg;base64,abc"), None);
    assert_eq!(png_base64_from_data_url(""), None);
}

#[test]
fn png_payload_is_trimmed_and_unquoted() {
    assert_eq!(
        png_base64_from_data_url("  \"\"data:image/png;base64,QUJD\"  \n"),
        Some("QUJD".into())
    );
    assert_eq!(png_base64_from_data_url("\"data:image/png;base64,\""), None);
}

#[test]
fn install_command_includes_version_and_prefix() {
    let cmd = install_shell_command("2026.6.2");
    assert!(cmd.contains("install-cli.sh"));
    assert!(cmd.contains("2026.6.2"));
    assert!(cmd.contains("--no-onboard"));
}

#[test]
fn resolve_openclaw_bin_prefers_env() {
    assert_eq!(
        resolve_openclaw_bin(Some("/tmp/custom-openclaw"), None, None),
        "/tmp/custom-openclaw"
    );
}

#[test]
fn resolve_openclaw_bin_ignores_blank_env() {
    let bin = resolve_openclaw_bin(Some("   "), Some("/nonexistent-home"), Some("/nonexistent-dir"));
    assert!(bin == "openclaw" || bin.ends_with("/openclaw"));
}

#[test]
fn shell_escape_quotes_spaces() {
    assert_eq!(shell_escape("latest"), "latest");
    assert_eq!(shell_escape("a b"), "'a b'");
}

#[test]
fn shell_escape_escapes_single_quotes() {
    assert_eq!(shell_escape("it's"), "'it'\\''s'");
    assert_eq!(shell_escape(""), "");
}

#[test]
fn empty_status_uses_product_name_only() {
    assert_eq!(format_tray_tooltip(""), "OpenClaw");
    assert_eq!(format_tray_tooltip("   "), "OpenClaw");
}

#[test]
fn non_empty_status_is_prefixed() {
    assert_eq!(
        format_tray_tooltip("operator connected"),
        "OpenClaw — operator connected"
    );
    assert_eq!(
        format_tray_tooltip("operator: connection refused"),
        "OpenClaw — operator: connection refused"
    );
}

#[test]
fn health_tooltip_includes_slots_and_detail() {
    assert_eq!(
        format_tray_tooltip_health(true, true, false, ""),
        "OpenClaw — operator ✓ · node ✓"
    );
    assert_eq!(
        format_tray_tooltip_health(false, false, true, "SSH tunnel active"),
        "OpenClaw — operator ✗ · node ✗ · tunnel ✓ — SSH tunnel active"
    );
}
