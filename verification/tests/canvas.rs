use openclaw_linux::canvas::{
    a2ui_index_candidates, a2ui_source, A2uiSource, a2ui_push_script, a2ui_reset_script, canvas_label,
    canvas_scaffold_candidates, decode_jsonl_messages, fallback_canvas_page, navigate_script,
    node_event_route, route_app_command, route_canvas_command, route_node_command, session_id,
    unsupported_canvas_message, unsupported_command_message, NodeCommand, NodeEventRoute,
};
use openclaw_linux::json::JsonField;

#[test]
fn decodes_jsonl_messages() {
    let msgs = decode_jsonl_messages("{\"a\":1}\n\n{\"b\":2}\n").unwrap();
    assert_eq!(msgs.len(), 2);
}

#[test]
fn jsonl_stops_at_bad_line() {
    let err = decode_jsonl_messages("{\"a\":1}\n  nope  \n{\"b\":2}").unwrap_err();
    assert!(err.contains("expected"));
    assert_eq!(decode_jsonl_messages("  \r\n").unwrap().len(), 0);
    assert_eq!(decode_jsonl_messages(" {\"a\":[1,2]} \r\n[3]").unwrap().len(), 2);
}

#[test]
fn labels_and_sessions() {
    assert_eq!(canvas_label("main"), "canvas-main");
    assert_eq!(
        session_id(JsonField::Text("desk".into()), JsonField::Text("x".into()), JsonField::Absent),
        "desk"
    );
    assert_eq!(
        session_id(JsonField::Absent, JsonField::Absent, JsonField::Text("s".into())),
        "s"
    );
    assert_eq!(session_id(JsonField::Other, JsonField::Text("x".into()), JsonField::Absent), "main");
    assert_eq!(session_id(JsonField::Text(String::new()), JsonField::Absent, JsonField::Absent), "main");
    assert_eq!(session_id(JsonField::Absent, JsonField::Absent, JsonField::Absent), "main");
    assert_eq!(fallback_canvas_page("desk"), "canvas.html?session=desk");
}

#[test]
fn node_commands_route_to_handlers() {
    assert_eq!(route_node_command("system.which"), NodeCommand::SystemWhich);
    assert_eq!(route_node_command("location.get"), NodeCommand::LocationGet);
    assert_eq!(route_node_command("canvas.a2ui.pushJSONL"), NodeCommand::A2uiPushJsonl);
    assert_eq!(route_node_command("canvas.bogus"), NodeCommand::UnsupportedCanvas);
    assert_eq!(route_node_command("talk.ptt.stop"), NodeCommand::PttStop);
    assert_eq!(route_node_command("talk.ptt.other"), NodeCommand::Unsupported);
    assert_eq!(route_node_command("system.run.prepare"), NodeCommand::RunPrepare);
    assert_eq!(route_node_command("system.execApprovals.set"), NodeCommand::ExecApprovalsSet);
    assert_eq!(route_node_command("nope"), NodeCommand::Unsupported);
    assert_eq!(route_app_command("system.which"), NodeCommand::Unsupported);
    assert_eq!(route_canvas_command("canvas.present"), NodeCommand::CanvasPresent);
    assert_eq!(unsupported_command_message("x"), "unsupported command: x");
    assert_eq!(unsupported_canvas_message("canvas.x"), "unsupported canvas command: canvas.x");
}

#[test]
fn events_route() {
    assert_eq!(node_event_route("node.invoke.request"), NodeEventRoute::Invoke);
    assert_eq!(node_event_route("device.pair.requested"), NodeEventRoute::Pairing);
    assert_eq!(node_event_route("tick"), NodeEventRoute::Ignore);
}

#[test]
fn canvas_scripts() {
    assert_eq!(
        navigate_script("https://a.b/\"x"),
        "window.location.href = \"https://a.b/\\\"x\";"
    );
    let push = a2ui_push_script("[1]");
    assert!(push.contains("const messages = [1];"));
    assert!(push.starts_with("(() => {\n"));
    assert!(a2ui_reset_script().contains("host.reset()"));
}

#[test]
fn canvas_page_candidates() {
    let c = canvas_scaffold_candidates("/src/app", Some("/repo"));
    assert_eq!(c.len(), 7);
    assert_eq!(c[0], "/repo/apps/linux/resources/canvas-scaffold/scaffold.html");
    assert_eq!(c[3], "/src/app/../../resources/canvas-scaffold/scaffold.html");
    let c = a2ui_index_candidates("/src/app", None);
    assert_eq!(c.len(), 4);
    assert_eq!(c[3], "extensions/canvas/src/host/a2ui/index.html");
}

#[test]
fn a2ui_message_sources() {
    assert_eq!(a2ui_source(true, true, Some("{}".into())), Ok(A2uiSource::Jsonl("{}".into())));
    assert_eq!(a2ui_source(true, true, None), Err("jsonl required".to_string()));
    assert_eq!(a2ui_source(false, true, Some("{}".into())), Ok(A2uiSource::Messages));
    assert_eq!(a2ui_source(false, false, Some("x".into())), Ok(A2uiSource::Jsonl("x".into())));
    assert_eq!(a2ui_source(false, false, None), Err("messages or jsonl required".to_string()));
}

#[test]
fn snapshot_steps_retry_then_fall_back() {
    let next = openclaw_linux::canvas::canvas_snapshot_next;
    assert_eq!(next(0, Some("data:image/png;base64,abc")), openclaw_linux::canvas::SnapshotNext::Done("abc".to_string()));
    assert_eq!(next(0, None), openclaw_linux::canvas::SnapshotNext::Retry);
    assert_eq!(next(1, Some("")), openclaw_linux::canvas::SnapshotNext::Retry);
    assert_eq!(next(2, Some("not a png")), openclaw_linux::canvas::SnapshotNext::FallBackToScreen);
    assert_eq!(next(2, Some("\"data:image/png;base64,xyz\"")), openclaw_linux::canvas::SnapshotNext::Done("xyz".to_string()));
}

#[test]
fn run_prepare_command_text() {
    let f = openclaw_linux::canvas::prepare_command;
    assert_eq!(f(&JsonField::Text("ls".into()), &JsonField::Text("raw".into())), "ls");
    assert_eq!(f(&JsonField::Other, &JsonField::Text("raw".into())), "raw");
    assert_eq!(f(&JsonField::Absent, &JsonField::Absent), "");
}

#[test]
fn jsonl_messages_keep_their_order() {
    let v = openclaw_linux::canvas::decode_jsonl_messages("{\"a\":1}\n\n {\"b\":2} \n").unwrap();
    assert_eq!(v.len(), 2);
    assert_eq!(v[0]["a"], 1);
    assert_eq!(v[1]["b"], 2);
}
