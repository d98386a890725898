use openclaw_linux::gateway_config::{ConnectionMode, GatewayConnectionSettings};
use openclaw_linux::openclaw_config::OpenClawGatewayConfig;
use openclaw_linux::deep_links::DeepLink;
use openclaw_linux::gateway_host::IpParts;
use openclaw_linux::runtime::{
    deep_link_action, tunnel_disconnected_status, tunnel_restart_outcome, DeepLinkAction,
    apply_gateway_link, connection_plan, next_backoff_secs, node_connected_status, prefixed_status,
    ssh_tunnel_args, tunnel_active_status, tunnel_request, tunnel_watch_step, ConnectionPlan,
    TunnelWatch,
};

#[test]
fn backoff_doubles_up_to_thirty_seconds() {
    assert_eq!(next_backoff_secs(2), 4);
    assert_eq!(next_backoff_secs(8), 16);
    assert_eq!(next_backoff_secs(16), 30);
    assert_eq!(next_backoff_secs(30), 30);
}

#[test]
fn status_lines() {
    assert_eq!(node_connected_status(""), "node connected");
    assert_eq!(node_connected_status("operator connected"), "operator connected; node connected");
    assert_eq!(prefixed_status("operator: ", "refused"), "operator: refused");
    assert_eq!(tunnel_active_status(18789), "SSH tunnel active on port 18789");
}

fn remote_ssh() -> GatewayConnectionSettings {
    let mut s = GatewayConnectionSettings::default();
    s.mode = ConnectionMode::Remote;
    s.ssh_target = Some("user@host".into());
    s
}

#[test]
fn connection_plans() {
    let mut s = GatewayConnectionSettings::default();
    assert_eq!(connection_plan(&s), ConnectionPlan::Local { autostart: true });
    s.gateway_autostart = false;
    assert_eq!(connection_plan(&s), ConnectionPlan::Local { autostart: false });
    let mut r = remote_ssh();
    assert_eq!(connection_plan(&r), ConnectionPlan::StartTunnel);
    r.remote_direct = true;
    assert_eq!(connection_plan(&r), ConnectionPlan::StopTunnel);
}

#[test]
fn watchdog_restarts_dead_tunnels_only() {
    let r = remote_ssh();
    assert_eq!(tunnel_watch_step(&r, true, false), TunnelWatch::Restart);
    assert_eq!(tunnel_watch_step(&r, true, true), TunnelWatch::ResetBackoff);
    assert_eq!(tunnel_watch_step(&r, false, false), TunnelWatch::Skip);
    let local = GatewayConnectionSettings::default();
    assert_eq!(tunnel_watch_step(&local, true, false), TunnelWatch::ResetBackoff);
}

#[test]
fn tunnel_arguments() {
    let args = ssh_tunnel_args(" user@host ", Some(" ~/.ssh/id "), 18789, 28789).unwrap();
    assert_eq!(args[13], "28789:127.0.0.1:18789");
    assert_eq!(args[14], "-i");
    assert_eq!(args[15], "~/.ssh/id");
    assert_eq!(args[16], "user@host");
    assert_eq!(args.len(), 17);
    let args = ssh_tunnel_args("h", Some("  "), 1, 2).unwrap();
    assert_eq!(args.len(), 15);
    assert_eq!(ssh_tunnel_args("   ", None, 1, 2), Err("gateway.remote.sshTarget is empty".to_string()));
}

#[test]
fn tunnel_request_from_settings() {
    let gateway = OpenClawGatewayConfig { port: Some(19000), ..Default::default() };
    let t = tunnel_request(&remote_ssh(), &gateway).unwrap();
    assert_eq!(t.ssh_target, "user@host");
    assert_eq!(t.remote_port, 19000);
    assert_eq!(t.local_port, 18789);
    let e = tunnel_request(&GatewayConnectionSettings::default(), &gateway).unwrap_err();
    assert_eq!(e, "remote mode requires gateway.remote.sshTarget");
}

#[test]
fn gateway_link_updates_host_and_port() {
    let mut s = GatewayConnectionSettings::default();
    apply_gateway_link(&mut s, Some("192.168.1.5".into()), Some(18790), Some(IpParts::V4([192, 168, 1, 5])));
    assert_eq!(s.host.as_deref(), Some("192.168.1.5"));
    assert_eq!(s.port, 18790);
    apply_gateway_link(&mut s, Some(String::new()), None, None);
    assert_eq!(s.host.as_deref(), Some("192.168.1.5"));
    assert_eq!(s.port, 18790);
}

#[test]
fn lan_gateway_link_switches_to_local_mode() {
    let mut s = GatewayConnectionSettings {
        mode: ConnectionMode::Remote,
        ssh_target: Some("me@box".into()),
        ..Default::default()
    };
    assert!(s.uses_ssh_tunnel());
    apply_gateway_link(&mut s, Some("192.168.1.20".into()), Some(18789), Some(IpParts::V4([192, 168, 1, 20])));
    assert_eq!(s.mode, ConnectionMode::Local);
    assert_eq!(s.host.as_deref(), Some("192.168.1.20"));
    assert!(!s.uses_ssh_tunnel());
    let mut r = GatewayConnectionSettings {
        mode: ConnectionMode::Remote,
        ..Default::default()
    };
    apply_gateway_link(&mut r, Some("gateway.example.com".into()), None, None);
    assert_eq!(r.mode, ConnectionMode::Remote);
    let mut l = GatewayConnectionSettings { mode: ConnectionMode::Remote, ..Default::default() };
    apply_gateway_link(&mut l, Some("studio.local".into()), None, None);
    assert_eq!(l.mode, ConnectionMode::Local);
}

#[test]
fn deep_links_choose_their_windows() {
    let agent = DeepLink::Agent {
        message: "hi".into(),
        session: Some(" agent:main:main ".into()),
        thinking: None,
        deliver: None,
    };
    match deep_link_action(agent) {
        DeepLinkAction::Agent { message, session } => {
            assert_eq!(message, "hi");
            assert_eq!(session.as_deref(), Some("agent:main:main"));
        }
        other => panic!("unexpected {:?}", other),
    }
    let plain = DeepLink::Agent { message: "hi".into(), session: Some("  ".into()), thinking: None, deliver: None };
    assert!(matches!(deep_link_action(plain), DeepLinkAction::Agent { session: None, .. }));
    match deep_link_action(DeepLink::WebChat { session: Some("s1".into()) }) {
        DeepLinkAction::OpenWebChat { session } => assert_eq!(session.as_deref(), Some("s1")),
        other => panic!("unexpected {:?}", other),
    }
    match deep_link_action(DeepLink::Canvas { session: None }) {
        DeepLinkAction::OpenCanvas { session } => assert_eq!(session, "main"),
        other => panic!("unexpected {:?}", other),
    }
    assert!(matches!(deep_link_action(DeepLink::Dashboard), DeepLinkAction::OpenDashboard));
    assert!(matches!(deep_link_action(DeepLink::Settings), DeepLinkAction::OpenSettings));
    assert!(matches!(
        deep_link_action(DeepLink::Gateway { host: Some("h".into()), port: Some(1) }),
        DeepLinkAction::ApplyGateway { port: Some(1), .. }
    ));
}

#[test]
fn tunnel_restart_statuses_and_backoff() {
    assert_eq!(tunnel_disconnected_status(), "SSH tunnel disconnected; reconnecting…");
    let ok = tunnel_restart_outcome(18789, Ok(()), 16);
    assert_eq!(ok.status, "SSH tunnel active on port 18789");
    assert_eq!(ok.wait_secs, None);
    assert_eq!(ok.next_backoff, 2);
    let mut backoff = 2;
    let mut waits = Vec::new();
    for _ in 0..6 {
        let failed = tunnel_restart_outcome(18789, Err("boom".into()), backoff);
        assert_eq!(failed.status, "SSH tunnel restart failed: boom");
        waits.push(failed.wait_secs.unwrap());
        backoff = failed.next_backoff;
    }
    assert_eq!(waits, vec![2, 4, 8, 16, 30, 30]);
}
