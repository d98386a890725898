use openclaw_linux::gateway_config::{ConnectionMode, GatewayConnectionSettings};
use openclaw_linux::openclaw_config::OpenClawGatewayConfig;

#[test]
fn default_node_advertisement_flags_enable_capture() {
    let settings = GatewayConnectionSettings::default();
    let (camera, location, screen, talk) = settings.node_advertisement_flags();
    assert!(camera && location && screen);
    assert!(!talk);
}

#[test]
fn resolved_webchat_session_prefers_explicit() {
    assert_eq!(
        GatewayConnectionSettings::resolved_webchat_session(Some("agent:other:main"), None),
        Some("agent:other:main".into())
    );
    assert_eq!(
        GatewayConnectionSettings::resolved_webchat_session(Some("  "), None),
        None
    );
}

#[test]
fn remember_webchat_session_round_trip() {
    let mut settings = GatewayConnectionSettings::default();
    assert!(settings.remember_webchat_session(Some("agent:main:main")));
    assert_eq!(settings.last_webchat_session.as_deref(), Some("agent:main:main"));
    assert_eq!(
        GatewayConnectionSettings::resolved_webchat_session(None, settings.last_webchat_session.as_deref()),
        Some("agent:main:main".into())
    );
    assert!(!settings.remember_webchat_session(Some("agent:main:main")));
    assert_eq!(
        GatewayConnectionSettings::resolved_webchat_session(Some("agent:other:main"), settings.last_webchat_session.as_deref()),
        Some("agent:other:main".into())
    );
    assert!(!settings.remember_webchat_session(None));
    assert_eq!(settings.last_webchat_session.as_deref(), Some("agent:main:main"));
}

#[test]
fn webchat_window_title_includes_session() {
    assert_eq!(
        GatewayConnectionSettings::webchat_window_title(Some("agent:main:main")),
        "OpenClaw WebChat — agent:main:main"
    );
    assert_eq!(
        GatewayConnectionSettings::webchat_window_title(None),
        "OpenClaw WebChat"
    );
}

#[test]
fn webchat_window_title_shortens_long_keys() {
    let key = "a".repeat(60);
    assert_eq!(
        GatewayConnectionSettings::webchat_window_title(Some(&key)),
        format!("OpenClaw WebChat — {}…", "a".repeat(45))
    );
    let key48 = "b".repeat(48);
    assert_eq!(
        GatewayConnectionSettings::webchat_window_title(Some(&key48)),
        format!("OpenClaw WebChat — {}", key48)
    );
}

#[test]
fn gateway_ws_url_uses_wss_when_tls_enabled() {
    let settings = GatewayConnectionSettings {
        host: Some("example.com".into()),
        port: 443,
        use_tls: true,
        ..GatewayConnectionSettings::default()
    };
    let url = settings.gateway_ws_url();
    assert_eq!(url.scheme, "wss");
    assert_eq!(url.host.as_deref(), Some("example.com"));
    assert!(url.port.unwrap_or(443) == 443);
}

#[test]
fn ssh_tunnel_only_for_remote_with_target() {
    let mut s = GatewayConnectionSettings::default();
    s.mode = ConnectionMode::Remote;
    s.ssh_target = Some("user@box".into());
    assert!(s.uses_ssh_tunnel());
    s.remote_direct = true;
    assert!(!s.uses_ssh_tunnel());
    s.remote_direct = false;
    s.ssh_target = Some("  ".into());
    assert!(!s.uses_ssh_tunnel());
    s.mode = ConnectionMode::Local;
    s.ssh_target = Some("user@box".into());
    assert!(!s.uses_ssh_tunnel());
}

#[test]
fn remote_port_falls_back_to_gateway_port_then_default() {
    let mut g = OpenClawGatewayConfig::default();
    assert_eq!(GatewayConnectionSettings::remote_gateway_port(&g), 18789);
    g.port = Some(19000);
    assert_eq!(GatewayConnectionSettings::remote_gateway_port(&g), 19000);
    g.remote_port = Some(20000);
    assert_eq!(GatewayConnectionSettings::remote_gateway_port(&g), 20000);
}

#[test]
fn gateway_config_fills_local_settings() {
    let mut g = OpenClawGatewayConfig::default();
    g.port = Some(19001);
    g.auth_token = Some("tok".into());
    g.remote_ssh_target = Some("me@host".into());
    let mut s = GatewayConnectionSettings::default();
    s.apply_gateway_config(&g);
    assert_eq!(s.port, 19001);
    assert_eq!(s.token.as_deref(), Some("tok"));
    assert_eq!(s.ssh_target.as_deref(), Some("me@host"));
    assert!(!s.remote_direct);
}

#[test]
fn remote_url_switches_to_direct_connection() {
    let mut g = OpenClawGatewayConfig::default();
    g.remote_url = Some(" wss://gw.example.com:8443 ".into());
    g.remote_token = Some("rt".into());
    g.auth_token = Some("at".into());
    let mut s = GatewayConnectionSettings::default();
    s.mode = ConnectionMode::Remote;
    s.apply_gateway_config(&g);
    assert_eq!(s.host.as_deref(), Some("gw.example.com"));
    assert_eq!(s.port, 8443);
    assert!(s.use_tls);
    assert!(s.remote_direct);
    assert_eq!(s.token.as_deref(), Some("rt"));

    let mut g2 = OpenClawGatewayConfig::default();
    g2.remote_url = Some("ws://127.0.0.1:18789".into());
    let mut s2 = GatewayConnectionSettings::default();
    s2.mode = ConnectionMode::Remote;
    s2.apply_gateway_config(&g2);
    assert_eq!(s2.host.as_deref(), Some("127.0.0.1"));
    assert!(!s2.remote_direct);

    let mut g3 = OpenClawGatewayConfig::default();
    g3.remote_transport = Some("direct".into());
    let mut s3 = GatewayConnectionSettings::default();
    s3.mode = ConnectionMode::Remote;
    s3.apply_gateway_config(&g3);
    assert!(s3.remote_direct);
}

#[test]
fn ipv6_loopback_remote_url_keeps_tunnel() {
    let mut s = GatewayConnectionSettings::default();
    s.mode = ConnectionMode::Remote;
    let g = OpenClawGatewayConfig {
        remote_url: Some("ws://[::1]:18789".into()),
        ..Default::default()
    };
    s.apply_remote_url(&g);
    assert!(!s.remote_direct);
    assert_eq!(s.host.as_deref(), Some("127.0.0.1"));
}
