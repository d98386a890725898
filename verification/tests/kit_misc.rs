use openclaw_linux::exec_approvals::PendingApprovals;
use openclaw_linux::cli_install::{cli_candidate_paths, installed_location_from};
use openclaw_linux::paths::first_accepted;
use openclaw_linux::bridge::{bridge_status, default_socket_path, resolve_socket_path, BridgeState};
use openclaw_linux::discovery::{dedupe_gateways, gateway_display_name, DiscoveredGateway};
use openclaw_linux::gateway_host::{bare_host_text, is_direct_lan_host, IpParts};
use openclaw_linux::node_caps::linux_node_advertisement;

fn v4(a: u8, b: u8, c: u8, d: u8) -> Option<IpParts> {
    Some(IpParts::V4([a, b, c, d]))
}

fn v6(s: [u16; 8]) -> Option<IpParts> {
    Some(IpParts::V6(s))
}

#[test]
fn classifies_lan_hosts() {
    assert!(is_direct_lan_host("192.168.1.10", v4(192, 168, 1, 10)));
    assert!(is_direct_lan_host("10.0.0.2", v4(10, 0, 0, 2)));
    assert!(is_direct_lan_host("127.0.0.1", v4(127, 0, 0, 1)));
    assert!(is_direct_lan_host("mybox.local", None));
}

#[test]
fn rejects_public_hostnames() {
    assert!(!is_direct_lan_host("gateway.example.com", None));
}

#[test]
fn lan_host_edge_cases() {
    assert!(is_direct_lan_host(" LocalHost ", None));
    assert!(is_direct_lan_host("[::1]", v6([0, 0, 0, 0, 0, 0, 0, 1])));
    assert!(is_direct_lan_host("[fe80::1]", v6([0xfe80, 0, 0, 0, 0, 0, 0, 1])));
    assert!(is_direct_lan_host("fd00::5", v6([0xfd00, 0, 0, 0, 0, 0, 0, 5])));
    assert!(is_direct_lan_host("172.20.1.1", v4(172, 20, 1, 1)));
    assert!(is_direct_lan_host("169.254.3.4", v4(169, 254, 3, 4)));
    assert!(!is_direct_lan_host("172.32.0.1", v4(172, 32, 0, 1)));
    assert!(!is_direct_lan_host("8.8.8.8", v4(8, 8, 8, 8)));
    assert!(!is_direct_lan_host("2001:db8::1", v6([0x2001, 0xdb8, 0, 0, 0, 0, 0, 1])));
    assert_eq!(bare_host_text(" [::1] "), "::1");
}

#[test]
fn display_name_strips_service_domain() {
    assert_eq!(gateway_display_name("mybox._openclaw-gw._tcp.local."), "mybox");
}

#[test]
fn dedupe_keeps_first_per_host_port() {
    let list = vec![
        DiscoveredGateway { name: "a".into(), host: "192.168.1.1".into(), port: 18789 },
        DiscoveredGateway { name: "b".into(), host: "192.168.1.1".into(), port: 18789 },
        DiscoveredGateway { name: "c".into(), host: "10.0.0.2".into(), port: 18789 },
    ];
    let out = dedupe_gateways(list);
    assert_eq!(out.len(), 2);
    assert_eq!(out[0].name, "a");
}

fn permission(perms: &[(String, bool)], key: &str) -> Option<bool> {
    perms.iter().find(|(k, _)| k == key).map(|(_, v)| *v)
}

#[test]
fn advertisement_includes_camera_when_enabled() {
    let (caps, commands, permissions) = linux_node_advertisement(true, false, false, false);
    assert!(caps.contains(&"camera".to_string()));
    assert!(commands.contains(&"camera.clip".to_string()));
    assert_eq!(permission(&permissions, "camera.capture"), Some(true));
}

#[test]
fn advertisement_omits_camera_when_disabled() {
    let (caps, commands, permissions) = linux_node_advertisement(false, false, true, false);
    assert!(!caps.contains(&"camera".to_string()));
    assert!(!commands.iter().any(|c| c.starts_with("camera.")));
    assert_eq!(permission(&permissions, "camera.capture"), Some(false));
    assert!(commands.contains(&"screen.record".to_string()));
}

#[test]
fn advertisement_includes_talk_when_enabled() {
    let (_, commands, _) = linux_node_advertisement(false, false, false, true);
    assert!(commands.contains(&"talk.ptt.start".to_string()));
}

#[test]
fn default_socket_under_openclaw_state() {
    let path = default_socket_path();
    assert!(path.contains(".openclaw"));
    assert!(path.ends_with("peekaboo.sock"));
}

#[test]
fn bridge_socket_override() {
    assert_eq!(resolve_socket_path(Some("/run/x.sock")), "/run/x.sock");
    assert!(resolve_socket_path(Some("  ")).ends_with("peekaboo.sock"));
    let s = bridge_status(None);
    assert_eq!(s.state, BridgeState::Planned);
}

#[test]
fn first_accepted_picks_first_true() {
    let c = vec!["a".to_string(), "b".to_string(), "c".to_string()];
    assert_eq!(first_accepted(&c, &vec![false, true, true]), Some("b".to_string()));
    assert_eq!(first_accepted(&c, &vec![false, false, false]), None);
}

#[test]
fn installed_location_takes_first_accepted_candidate() {
    let c = cli_candidate_paths(Some("/home/u"), Some("/opt/bin::/usr/bin"));
    assert_eq!(c[0], "/home/u/.openclaw/bin/openclaw");
    assert_eq!(c[2], "/opt/bin/openclaw");
    let flags: Vec<bool> = (0..c.len()).map(|i| i == 2 || i == 4).collect();
    assert_eq!(
        installed_location_from(Some("/home/u"), Some("/opt/bin::/usr/bin"), &flags),
        Some("/opt/bin/openclaw".to_string())
    );
    let none = vec![false; c.len()];
    assert_eq!(installed_location_from(Some("/home/u"), Some("/opt/bin::/usr/bin"), &none), None);
}

#[test]
fn pending_approval_answered_once() {
    let mut p = PendingApprovals::new();
    p.register("req-1");
    assert_eq!(p.resolve("req-1", "allow-once"), Ok("allow-once".to_string()));
    assert_eq!(p.resolve("req-1", "allow"), Err("no pending exec approval for id".to_string()));
    p.register("req-2");
    assert_eq!(p.resolve("req-2", "maybe"), Ok("deny".to_string()));
    assert_eq!(p.resolve("unknown", "allow"), Err("no pending exec approval for id".to_string()));
}

#[test]
fn install_outcome_reports_exit_code_and_stderr() {
    let f = openclaw_linux::cli_install::install_outcome;
    assert_eq!(f(true, Some(0), "done".into(), "".into()), Ok("done".to_string()));
    assert_eq!(
        f(false, Some(2), "".into(), "no network".into()),
        Err("install failed (exit code 2): no network".to_string())
    );
    assert_eq!(
        f(false, None, "".into(), "killed".into()),
        Err("install failed (exit code unknown): killed".to_string())
    );
}

#[test]
fn text_order_is_by_code_point() {
    let lt = openclaw_linux::text::text_lt;
    assert!(lt("camera.capture", "screen.record"));
    assert!(!lt("screen.record", "camera.capture"));
    assert!(lt("abc", "abcd"));
    assert!(!lt("abc", "abc"));
}
