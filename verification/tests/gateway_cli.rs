use openclaw_linux::gateway_autostart::{
    gateway_status_indicates_running, read_daemon_status, should_autostart_gateway, status_indicates_running,
    DaemonStatus,
};
use openclaw_linux::gateway_cli::{
    ensure_gateway_step, EnsureAction, EnsureEvent, EnsurePhase, GatewayCli, GatewayCommand,
};
use openclaw_linux::gateway_config::{ConnectionMode, GatewayConnectionSettings};

#[test]
fn autostart_only_for_local_when_enabled() {
    let mut s = GatewayConnectionSettings::default();
    s.gateway_autostart = true;
    s.mode = ConnectionMode::Local;
    assert!(should_autostart_gateway(&s));
    s.mode = ConnectionMode::Remote;
    assert!(!should_autostart_gateway(&s));
    s.mode = ConnectionMode::Local;
    s.gateway_autostart = false;
    assert!(!should_autostart_gateway(&s));
}

#[test]
fn parses_running_from_daemon_status_json() {
    let json = r#"{"service":{"runtime":{"status":"running"}},"rpc":{"ok":false}}"#;
    assert!(gateway_status_indicates_running(json));
    let rpc_ok = r#"{"service":{"runtime":{"status":"stopped"}},"rpc":{"ok":true}}"#;
    assert!(gateway_status_indicates_running(rpc_ok));
}

#[test]
fn status_text_fallback_and_stopped() {
    assert!(!gateway_status_indicates_running(r#"{"service":{"runtime":{"status":"stopped"}}}"#));
    assert!(gateway_status_indicates_running(r#"not json "status": "running""#));
    assert!(!gateway_status_indicates_running("not json"));
    // Parsed JSON is judged by its fields, not by the text.
    assert!(!gateway_status_indicates_running(r#"{"status":"running"}"#));
}

#[test]
fn daemon_status_fields_are_read() {
    let d = read_daemon_status(r#"{"rpc":{"ok":"yes"},"service":{"runtime":{"status":"running"}}}"#).unwrap();
    assert_eq!(d.rpc_ok, None);
    assert_eq!(d.runtime_status.as_deref(), Some("running"));
    assert!(read_daemon_status("{").is_none());
    let fields = Some(DaemonStatus { rpc_ok: Some(true), runtime_status: None });
    assert!(status_indicates_running("{}", fields));
}

#[test]
fn outcome_and_status() {
    assert_eq!(GatewayCli::command_outcome(true, "out".into(), "err".into()), Ok("out".to_string()));
    assert_eq!(GatewayCli::command_outcome(false, "out".into(), "err".into()), Err("err".to_string()));
    assert!(GatewayCli::running_from_status(&Ok(r#"{"rpc":{"ok":true}}"#.to_string())));
    assert!(!GatewayCli::running_from_status(&Err("boom".to_string())));
}

fn finished(a: &EnsureAction) -> Option<Result<(), String>> {
    match a {
        EnsureAction::Finish(r) => Some(r.clone()),
        _ => None,
    }
}

#[test]
fn ensure_running_gateway_needs_nothing() {
    let (phase, action) = ensure_gateway_step(EnsurePhase::Probe, EnsureEvent::Running(true));
    assert_eq!(finished(&action), Some(Ok(())));
    assert!(matches!(phase, EnsurePhase::Done(Ok(()))));
}

#[test]
fn ensure_falls_back_to_systemctl_and_reports_exit() {
    let (phase, action) = ensure_gateway_step(EnsurePhase::Probe, EnsureEvent::Running(false));
    assert!(matches!(action, EnsureAction::StartService));
    let (phase, action) = ensure_gateway_step(phase, EnsureEvent::Started(Err("boom".into())));
    assert!(matches!(action, EnsureAction::StartWithSystemctl));
    let (_, action) = ensure_gateway_step(phase, EnsureEvent::Systemctl(Ok((false, Some(5)))));
    assert_eq!(
        finished(&action),
        Some(Err("failed to start gateway: boom (systemctl exit Some(5))".to_string()))
    );
}

#[test]
fn ensure_waits_until_running_or_timeout() {
    let (phase, action) = ensure_gateway_step(EnsurePhase::Starting, EnsureEvent::Started(Ok(())));
    assert!(matches!(action, EnsureAction::CheckStatus));
    let (phase, action) = ensure_gateway_step(phase, EnsureEvent::Running(false));
    assert!(matches!(action, EnsureAction::Sleep(500)));
    let (phase, action) = ensure_gateway_step(phase, EnsureEvent::Elapsed(1000));
    assert!(matches!(action, EnsureAction::CheckStatus));
    let (_, action) = ensure_gateway_step(phase, EnsureEvent::Elapsed(45000));
    assert_eq!(
        finished(&action),
        Some(Err("gateway did not become ready in time; run openclaw gateway install && openclaw gateway status".to_string()))
    );
    let (_, action) = ensure_gateway_step(EnsurePhase::Waiting, EnsureEvent::Running(true));
    assert_eq!(finished(&action), Some(Ok(())));
}

#[test]
fn ensure_systemctl_spawn_error_and_negative_code() {
    let (_, action) = ensure_gateway_step(
        EnsurePhase::Fallback("x".into()),
        EnsureEvent::Systemctl(Err("no systemctl".into())),
    );
    assert_eq!(finished(&action), Some(Err("no systemctl".to_string())));
    let (_, action) = ensure_gateway_step(
        EnsurePhase::Fallback("x".into()),
        EnsureEvent::Systemctl(Ok((false, None))),
    );
    assert_eq!(
        finished(&action),
        Some(Err("failed to start gateway: x (systemctl exit None)".to_string()))
    );
    let (_, action) = ensure_gateway_step(
        EnsurePhase::Fallback("x".into()),
        EnsureEvent::Systemctl(Ok((false, Some(-3)))),
    );
    assert_eq!(
        finished(&action),
        Some(Err("failed to start gateway: x (systemctl exit Some(-3))".to_string()))
    );
}
