use openclaw_linux::dashboard::{
    control_ui_chat_url, control_ui_index_candidates, dashboard_launch, dashboard_url_with_token_fragment, default_http_host,
    native_control_auth_init_script, normalize_base_path, resolve_control_ui_index, resolve_dashboard_auth, webchat_launch,
};
use openclaw_linux::gateway_config::{ConnectionMode, GatewayConnectionSettings};
use openclaw_linux::openclaw_config::OpenClawGatewayConfig;

#[test]
fn local_dashboard_uses_control_ui_base_path() {
    let settings = GatewayConnectionSettings {
        mode: ConnectionMode::Local,
        port: 18789,
        host: None,
        token: Some("sekrit".into()),
        password: None,
        use_tls: false,
        ..Default::default()
    };
    let gateway = OpenClawGatewayConfig {
        port: Some(18789),
        bind: Some("loopback".into()),
        control_ui_base_path: Some("/openclaw".into()),
        ..Default::default()
    };
    let auth = resolve_dashboard_auth(&settings, &gateway).unwrap();
    assert_eq!(auth.http_url.serialization, "http://127.0.0.1:18789/openclaw");
    assert_eq!(auth.ws_url, "ws://127.0.0.1:18789/openclaw");
    let with_frag = dashboard_url_with_token_fragment(auth.http_url.clone(), auth.token.as_deref()).unwrap();
    assert_eq!(with_frag.fragment.as_deref(), Some("token=sekrit"));
    let chat = control_ui_chat_url(&auth).unwrap();
    assert_eq!(chat.path, "/openclaw/chat");
    assert_eq!(chat.fragment.as_deref(), Some("token=sekrit"));
}

#[test]
fn base_path_is_normalized() {
    assert_eq!(normalize_base_path(None), "/");
    assert_eq!(normalize_base_path(Some("   ")), "/");
    assert_eq!(normalize_base_path(Some("openclaw")), "/openclaw");
    assert_eq!(normalize_base_path(Some(" /openclaw/ ")), "/openclaw");
    assert_eq!(normalize_base_path(Some("/a/b//")), "/a/b");
    assert_eq!(normalize_base_path(Some("/")), "/");
    assert_eq!(normalize_base_path(Some("///")), "");
}

#[test]
fn default_host_is_loopback() {
    assert_eq!(default_http_host(ConnectionMode::Remote, None), "127.0.0.1");
    assert_eq!(default_http_host(ConnectionMode::Local, Some("lan")), "127.0.0.1");
    assert_eq!(default_http_host(ConnectionMode::Local, None), "127.0.0.1");
}

#[test]
fn remote_dashboard_uses_root_and_tls_from_config() {
    let settings = GatewayConnectionSettings {
        mode: ConnectionMode::Remote,
        port: 0,
        host: Some("gw.example.com".into()),
        token: None,
        password: Some("  pw  ".into()),
        ..Default::default()
    };
    let gateway = OpenClawGatewayConfig {
        port: Some(443),
        tls_enabled: Some(true),
        control_ui_base_path: Some("/ignored".into()),
        auth_token: Some(" t0k ".into()),
        ..Default::default()
    };
    let auth = resolve_dashboard_auth(&settings, &gateway).unwrap();
    assert_eq!(auth.http_url.serialization, "https://gw.example.com/");
    assert_eq!(auth.ws_url, "wss://gw.example.com:443/");
    assert_eq!(auth.token.as_deref(), Some("t0k"));
    assert_eq!(auth.password.as_deref(), Some("pw"));
}

#[test]
fn blank_host_falls_back_to_loopback_and_bad_host_is_an_error() {
    let mut settings = GatewayConnectionSettings::default();
    settings.host = Some("   ".into());
    let gateway = OpenClawGatewayConfig::default();
    let auth = resolve_dashboard_auth(&settings, &gateway).unwrap();
    assert_eq!(auth.http_url.serialization, "http://127.0.0.1:18789/");
    assert!(auth.token.is_none());
    settings.host = Some("bad host".into());
    let err = resolve_dashboard_auth(&settings, &gateway).unwrap_err();
    assert!(err.starts_with("invalid dashboard url: "));
}

#[test]
fn token_fragment_is_form_encoded() {
    let mut settings = GatewayConnectionSettings::default();
    settings.token = Some("a b&c".into());
    let gateway = OpenClawGatewayConfig::default();
    let (url, _) = dashboard_launch(&settings, &gateway).unwrap();
    assert_eq!(url.fragment.as_deref(), Some("token=a+b%26c"));
    assert_eq!(url.serialization, "http://127.0.0.1:18789/#token=a+b%26c");
    let auth = resolve_dashboard_auth(&settings, &gateway).unwrap();
    let unchanged = dashboard_url_with_token_fragment(auth.http_url.clone(), Some("")).unwrap();
    assert_eq!(unchanged.serialization, auth.http_url.serialization);
}

#[test]
fn init_script_carries_url_and_credentials() {
    let settings = GatewayConnectionSettings {
        token: Some("sekrit".into()),
        ..Default::default()
    };
    let gateway = OpenClawGatewayConfig::default();
    let auth = resolve_dashboard_auth(&settings, &gateway).unwrap();
    assert_eq!(
        native_control_auth_init_script(&auth),
        "(function(){try{Object.defineProperty(window,\"__OPENCLAW_NATIVE_CONTROL_AUTH__\",{value:{\"gatewayUrl\":\"ws://127.0.0.1:18789/\",\"password\":null,\"token\":\"sekrit\"},configurable:true});}catch(e){}})();"
    );
}

#[test]
fn webchat_opens_chat_under_root() {
    let settings = GatewayConnectionSettings::default();
    let gateway = OpenClawGatewayConfig::default();
    let (url, title, script) = webchat_launch(&settings, &gateway, None).unwrap();
    assert_eq!(title, "OpenClaw WebChat");
    assert_eq!(url.serialization, "http://127.0.0.1:18789/chat");
    assert!(url.fragment.is_none());
    assert!(script.contains("\"token\":null"));
}

#[test]
fn control_ui_candidates_prefer_repo_root() {
    let with_root = control_ui_index_candidates("/src/app", Some("/repo"));
    assert_eq!(
        with_root,
        vec![
            "/repo/dist/control-ui/index.html".to_string(),
            "/src/app/../../../../dist/control-ui/index.html".to_string(),
            "dist/control-ui/index.html".to_string(),
        ]
    );
    let without = control_ui_index_candidates("/src/app", None);
    assert_eq!(without.len(), 2);
    assert_eq!(without[1], "dist/control-ui/index.html");
}

#[test]
fn control_ui_index_absent_when_nothing_built() {
    assert_eq!(resolve_control_ui_index("/nonexistent-openclaw-dir", Some("/nonexistent-openclaw-root")), None);
}

#[test]
fn webchat_restores_last_session() {
    let settings = GatewayConnectionSettings {
        token: Some("sekrit".into()),
        last_webchat_session: Some(" agent:main:main ".into()),
        ..Default::default()
    };
    let gateway = OpenClawGatewayConfig::default();
    let (url, title, _) = webchat_launch(&settings, &gateway, None).unwrap();
    assert_eq!(
        url.serialization,
        "http://127.0.0.1:18789/chat?session=agent%3Amain%3Amain#token=sekrit"
    );
    assert_eq!(title, "OpenClaw WebChat — agent:main:main");
    let (explicit, title2, _) = webchat_launch(&settings, &gateway, Some("agent:other:main")).unwrap();
    assert_eq!(explicit.query_pairs, vec![("session".to_string(), "agent:other:main".to_string())]);
    assert_eq!(title2, "OpenClaw WebChat — agent:other:main");
}
