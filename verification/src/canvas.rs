//! The canvas window and the node command surface: which command goes where, the
//! scripts run in the canvas, and where the canvas pages are found.
use vstd::prelude::*;

use crate::device_auth::views;
use crate::encoding::{lines_of, text_lines};
use crate::json::{
    first_present, first_present_text, json_parse_error, json_quote, json_string_literal, json_value_of,
    parse_json, JsonField,
};

use crate::paths::{first_existing, is_first_accepted, join_path, opt_string, path_join};
use crate::text::{chars_of, contains_seq, contains_str, has_prefix_in, opt_view, starts_with, str_eq, trim, trim_string};

use crate::canvas_snapshot::{png_base64_from_data_url, png_payload};

verus! {

/// The window label of a canvas session.
pub open spec fn canvas_label_of(session: Seq<char>) -> Seq<char> {
    "canvas-"@ + session
}

/// The window label of a canvas session (`canvas-<session>`).
pub fn canvas_label(session: &str) -> (r: String)
    ensures
        r@ == canvas_label_of(session@),
{
    let mut s = String::from_str("canvas-");
    s.append(session);
    s
}

/// The session a canvas command targets: the first of `sessionKey`, `sessionId`,
/// `session` that is present, when it is a non-empty string; else `main`.
pub open spec fn session_of(fields: Seq<JsonField>) -> Seq<char> {
    match first_present_text(fields) {
        Some(s) => if s.len() > 0 {
            s
        } else {
            "main"@
        },
        None => "main"@,
    }
}

/// The session a canvas command targets, given its `sessionKey`, `sessionId` and
/// `session` params (see `session_of`).
pub fn session_id(key_param: JsonField, id_param: JsonField, session_param: JsonField) -> (r:
    String)
    ensures
        r@ == session_of(seq![key_param, id_param, session_param]),
{
    let mut fields: Vec<JsonField> = Vec::new();
    fields.push(key_param);
    fields.push(id_param);
    fields.push(session_param);
    assert(fields@ =~= seq![key_param, id_param, session_param]);
    match first_present(&fields) {
        Some(s) => if s.as_str().is_empty() {
            String::from_str("main")
        } else {
            s
        },
        None => String::from_str("main"),
    }
}

/// Where a node command is handled.
#[derive(Debug, Clone, Copy, PartialEq, Eq, Structural)]
pub enum NodeCommand {
    SystemWhich,
    SystemRun,
    SystemNotify,
    ScreenSnapshot,
    CameraSnap,
    CameraClip,
    ScreenRecord,
    CameraList,
    LocationGet,
    ExecApprovalsGet,
    ExecApprovalsSet,
    RunPrepare,
    PttStart,
    PttStop,
    PttCancel,
    PttOnce,
    CanvasPresent,
    CanvasHide,
    CanvasNavigate,
    CanvasEval,
    CanvasSnapshot,
    A2uiReset,
    A2uiPush,
    A2uiPushJsonl,
    UnsupportedCanvas,
    Unsupported,
}

/// The canvas commands.
pub open spec fn canvas_route(c: Seq<char>) -> NodeCommand {
    if c == "canvas.present"@ {
        NodeCommand::CanvasPresent
    } else if c == "canvas.hide"@ {
        NodeCommand::CanvasHide
    } else if c == "canvas.navigate"@ {
        NodeCommand::CanvasNavigate
    } else if c == "canvas.eval"@ {
        NodeCommand::CanvasEval
    } else if c == "canvas.snapshot"@ {
        NodeCommand::CanvasSnapshot
    } else if c == "canvas.a2ui.reset"@ {
        NodeCommand::A2uiReset
    } else if c == "canvas.a2ui.push"@ {
        NodeCommand::A2uiPush
    } else if c == "canvas.a2ui.pushJSONL"@ {
        NodeCommand::A2uiPushJsonl
    } else {
        NodeCommand::UnsupportedCanvas
    }
}

/// The commands the app handles itself: canvas commands, exec approvals, run
/// preparation and push-to-talk.
pub open spec fn app_route(c: Seq<char>) -> NodeCommand {
    if starts_with(c, "canvas."@) {
        canvas_route(c)
    } else if c == "system.execApprovals.get"@ {
        NodeCommand::ExecApprovalsGet
    } else if c == "system.execApprovals.set"@ {
        NodeCommand::ExecApprovalsSet
    } else if c == "system.run.prepare"@ {
        NodeCommand::RunPrepare
    } else if c == "talk.ptt.start"@ {
        NodeCommand::PttStart
    } else if c == "talk.ptt.stop"@ {
        NodeCommand::PttStop
    } else if c == "talk.ptt.cancel"@ {
        NodeCommand::PttCancel
    } else if c == "talk.ptt.once"@ {
        NodeCommand::PttOnce
    } else {
        NodeCommand::Unsupported
    }
}

/// Whether the node hands a command to the app.
pub open spec fn app_handles(c: Seq<char>) -> bool {
    starts_with(c, "canvas."@) || starts_with(c, "talk.ptt."@) || c == "system.execApprovals.get"@
        || c == "system.execApprovals.set"@ || c == "system.run.prepare"@
}

/// Where an invoked node command goes: the node's own system, screen, camera and
/// location commands, then what the app handles, else unsupported.
pub open spec fn node_route(c: Seq<char>) -> NodeCommand {
    if c == "system.which"@ {
        NodeCommand::SystemWhich
    } else if c == "system.run"@ {
        NodeCommand::SystemRun
    } else if c == "system.notify"@ {
        NodeCommand::SystemNotify
    } else if c == "screen.snapshot"@ {
        NodeCommand::ScreenSnapshot
    } else if c == "camera.snap"@ {
        NodeCommand::CameraSnap
    } else if c == "camera.clip"@ {
        NodeCommand::CameraClip
    } else if c == "screen.record"@ {
        NodeCommand::ScreenRecord
    } else if c == "camera.list"@ {
        NodeCommand::CameraList
    } else if c == "location.get"@ {
        NodeCommand::LocationGet
    } else if app_handles(c) {
        app_route(c)
    } else {
        NodeCommand::Unsupported
    }
}

/// Where a canvas command goes (see `canvas_route`).
pub fn route_canvas_command(command: &str) -> (r: NodeCommand)
    ensures
        r == canvas_route(command@),
{
    if str_eq(command, "canvas.present") {
        NodeCommand::CanvasPresent
    } else if str_eq(command, "canvas.hide") {
        NodeCommand::CanvasHide
    } else if str_eq(command, "canvas.navigate") {
        NodeCommand::CanvasNavigate
    } else if str_eq(command, "canvas.eval") {
        NodeCommand::CanvasEval
    } else if str_eq(command, "canvas.snapshot") {
        NodeCommand::CanvasSnapshot
    } else if str_eq(command, "canvas.a2ui.reset") {
        NodeCommand::A2uiReset
    } else if str_eq(command, "canvas.a2ui.push") {
        NodeCommand::A2uiPush
    } else if str_eq(command, "canvas.a2ui.pushJSONL") {
        NodeCommand::A2uiPushJsonl
    } else {
        NodeCommand::UnsupportedCanvas
    }
}

/// Whether `s` starts with `p`.
fn text_starts_with(s: &str, p: &str) -> (r: bool)
    ensures
        r == starts_with(s@, p@),
{
    let v = chars_of(s);
    let pv = chars_of(p);
    let r = has_prefix_in(&v, 0, v.len(), &pv);
    assert(v@.subrange(0, v@.len() as int) =~= v@);
    r
}

/// Where a command the app handles goes (see `app_route`).
pub fn route_app_command(command: &str) -> (r: NodeCommand)
    ensures
        r == app_route(command@),
{
    if text_starts_with(command, "canvas.") {
        route_canvas_command(command)
    } else if str_eq(command, "system.execApprovals.get") {
        NodeCommand::ExecApprovalsGet
    } else if str_eq(command, "system.execApprovals.set") {
        NodeCommand::ExecApprovalsSet
    } else if str_eq(command, "system.run.prepare") {
        NodeCommand::RunPrepare
    } else if str_eq(command, "talk.ptt.start") {
        NodeCommand::PttStart
    } else if str_eq(command, "talk.ptt.stop") {
        NodeCommand::PttStop
    } else if str_eq(command, "talk.ptt.cancel") {
        NodeCommand::PttCancel
    } else if str_eq(command, "talk.ptt.once") {
        NodeCommand::PttOnce
    } else {
        NodeCommand::Unsupported
    }
}

/// Where an invoked node command goes (see `node_route`).
pub fn route_node_command(command: &str) -> (r: NodeCommand)
    ensures
        r == node_route(command@),
{
    if str_eq(command, "system.which") {
        NodeCommand::SystemWhich
    } else if str_eq(command, "system.run") {
        NodeCommand::SystemRun
    } else if str_eq(command, "system.notify") {
        NodeCommand::SystemNotify
    } else if str_eq(command, "screen.snapshot") {
        NodeCommand::ScreenSnapshot
    } else if str_eq(command, "camera.snap") {
        NodeCommand::CameraSnap
    } else if str_eq(command, "camera.clip") {
        NodeCommand::CameraClip
    } else if str_eq(command, "screen.record") {
        NodeCommand::ScreenRecord
    } else if str_eq(command, "camera.list") {
        NodeCommand::CameraList
    } else if str_eq(command, "location.get") {
        NodeCommand::LocationGet
    } else if text_starts_with(command, "canvas.") || text_starts_with(command, "talk.ptt.")
        || str_eq(command, "system.execApprovals.get") || str_eq(
        command,
        "system.execApprovals.set",
    ) || str_eq(command, "system.run.prepare") {
        route_app_command(command)
    } else {
        NodeCommand::Unsupported
    }
}

/// The error for a command nobody handles.
pub fn unsupported_command_message(command: &str) -> (r: String)
    ensures
        r@ == "unsupported command: "@ + command@,
{
    let mut s = String::from_str("unsupported command: ");
    s.append(command);
    s
}

/// The error for a canvas command the canvas does not know.
pub fn unsupported_canvas_message(command: &str) -> (r: String)
    ensures
        r@ == "unsupported canvas command: "@ + command@,
{
    let mut s = String::from_str("unsupported canvas command: ");
    s.append(command);
    s
}

/// What a gateway event asks of the node.
#[derive(Debug, Clone, Copy, PartialEq, Eq, Structural)]
pub enum NodeEventRoute {
    Invoke,
    Pairing,
    Ignore,
}

/// `node.invoke.request` runs a command; other events naming pairing are shown as
/// pairing requests; the rest are ignored.
pub open spec fn node_event_route_of(event: Seq<char>) -> NodeEventRoute {
    if event == "node.invoke.request"@ {
        NodeEventRoute::Invoke
    } else if contains_seq(event, "pair"@) {
        NodeEventRoute::Pairing
    } else {
        NodeEventRoute::Ignore
    }
}

/// What a gateway event asks of the node (see `node_event_route_of`).
pub fn node_event_route(event: &str) -> (r: NodeEventRoute)
    ensures
        r == node_event_route_of(event@),
{
    if str_eq(event, "node.invoke.request") {
        NodeEventRoute::Invoke
    } else if contains_str(event, "pair") {
        NodeEventRoute::Pairing
    } else {
        NodeEventRoute::Ignore
    }
}

/// The script that navigates the canvas to `url`.
pub open spec fn navigate_script_of(url: Seq<char>) -> Seq<char> {
    "window.location.href = "@ + json_string_literal(url) + ";"@
}

/// The script that navigates the canvas to `url` (see `navigate_script_of`).
pub fn navigate_script(url: &str) -> (r: String)
    ensures
        r@ == navigate_script_of(url@),
{
    let mut s = String::from_str("window.location.href = ");
    s.append(json_quote(url).as_str());
    s.append(";");
    s
}

/// The script that resets the A2UI host.
pub open spec fn a2ui_reset_script_text() -> Seq<char> {
    "(() => {\n                  const host = globalThis.openclawA2UI;\n                  if (!host) return JSON.stringify({ ok: false, error: \"missing openclawA2UI\" });\n                  return JSON.stringify(host.reset());\n                })()"@
}

/// The script that resets the A2UI host (see `a2ui_reset_script_text`).
pub fn a2ui_reset_script() -> (r: String)
    ensures
        r@ == a2ui_reset_script_text(),
{
    String::from_str(
        "(() => {\n                  const host = globalThis.openclawA2UI;\n                  if (!host) return JSON.stringify({ ok: false, error: \"missing openclawA2UI\" });\n                  return JSON.stringify(host.reset());\n                })()",
    )
}

/// The script that applies A2UI messages (given as JSON) in the canvas and reports the
/// outcome as JSON.
pub open spec fn a2ui_push_script_of(messages_json: Seq<char>) -> Seq<char> {
    "(() => {\n                  try {\n                    const host = globalThis.openclawA2UI;\n                    if (!host) return JSON.stringify({ ok: false, error: \"missing openclawA2UI\" });\n                    const messages = "@ + messages_json + ";\n                    return JSON.stringify(host.applyMessages(messages));\n                  } catch (e) {\n                    return JSON.stringify({ ok: false, error: String(e?.message ?? e) });\n                  }\n                })()"@
}

/// The script that applies A2UI messages (see `a2ui_push_script_of`).
pub fn a2ui_push_script(messages_json: &str) -> (r: String)
    ensures
        r@ == a2ui_push_script_of(messages_json@),
{
    let mut s = String::from_str(
        "(() => {\n                  try {\n                    const host = globalThis.openclawA2UI;\n                    if (!host) return JSON.stringify({ ok: false, error: \"missing openclawA2UI\" });\n                    const messages = ",
    );
    s.append(messages_json);
    s.append(
        ";\n                    return JSON.stringify(host.applyMessages(messages));\n                  } catch (e) {\n                    return JSON.stringify({ ok: false, error: String(e?.message ?? e) });\n                  }\n                })()",
    );
    s
}

/// How many times a canvas snapshot tries the webview before falling back to the screen.
pub const CANVAS_SNAPSHOT_ATTEMPTS: u64 = 3;

/// The script that reads the canvas as a PNG data URL (empty when there is no canvas or
/// it cannot be read).
pub open spec fn canvas_snapshot_script_text() -> Seq<char> {
    "(() => { const c = document.querySelector('canvas'); if (!c) return ''; try { return c.toDataURL('image/png'); } catch (e) { return ''; } })()"@
}

/// The script that reads the canvas as a PNG data URL (see `canvas_snapshot_script_text`).
pub fn canvas_snapshot_script() -> (r: String)
    ensures
        r@ == canvas_snapshot_script_text(),
{
    String::from_str(
        "(() => { const c = document.querySelector('canvas'); if (!c) return ''; try { return c.toDataURL('image/png'); } catch (e) { return ''; } })()",
    )
}

/// The command text of a `system.run.prepare` request: `command` when it is a string,
/// else `rawCommand` when it is a string, else empty.
pub open spec fn prepare_command_of(command: JsonField, raw_command: JsonField) -> Seq<char> {
    match command {
        JsonField::Text(c) => c@,
        _ => match raw_command {
            JsonField::Text(r) => r@,
            _ => Seq::empty(),
        },
    }
}

/// The command text of a `system.run.prepare` request (see `prepare_command_of`).
pub fn prepare_command(command: &JsonField, raw_command: &JsonField) -> (r: String)
    ensures
        r@ == prepare_command_of(*command, *raw_command),
{
    match command {
        JsonField::Text(c) => c.clone(),
        _ => match raw_command {
            JsonField::Text(r) => r.clone(),
            _ => String::new(),
        },
    }
}

/// What a canvas snapshot does after a webview attempt.
#[derive(Debug, Clone, PartialEq, Eq)]
pub enum SnapshotNext {
    /// The webview gave a PNG: its base64 payload (`source: webview`).
    Done(String),
    /// Try the webview again.
    Retry,
    /// Give up on the webview and take the screen instead (`source: screen`, with a note).
    FallBackToScreen,
}

/// The step after webview attempt `attempt` (counted from 0) read `data_url` (nothing
/// when the script failed): done when it holds a PNG data URL, else another try while
/// fewer than `CANVAS_SNAPSHOT_ATTEMPTS` attempts were made, else the screen.
pub fn canvas_snapshot_next(attempt: u64, data_url: Option<&str>) -> (r: SnapshotNext)
    ensures
        match (match data_url {
            Some(d) => png_payload(d@),
            None => None,
        }) {
            Some(b) => r matches SnapshotNext::Done(s) && s@ == b,
            None => if attempt + 1 < CANVAS_SNAPSHOT_ATTEMPTS {
                r is Retry
            } else {
                r is FallBackToScreen
            },
        },
{
    let payload = match data_url {
        Some(d) => png_base64_from_data_url(d),
        None => None,
    };
    match payload {
        Some(b) => SnapshotNext::Done(b),
        None => if attempt < CANVAS_SNAPSHOT_ATTEMPTS - 1 {
            SnapshotNext::Retry
        } else {
            SnapshotNext::FallBackToScreen
        },
    }
}

/// The note on a canvas snapshot taken from the screen.
pub open spec fn screen_fallback_note_text() -> Seq<char> {
    "webview capture failed after 3 attempts; screen snapshot returned instead"@
}

/// The note on a canvas snapshot taken from the screen (see `screen_fallback_note_text`).
pub fn screen_fallback_note() -> (r: String)
    ensures
        r@ == screen_fallback_note_text(),
{
    String::from_str("webview capture failed after 3 attempts; screen snapshot returned instead")
}

/// The non-blank lines of a JSONL text, trimmed.
pub open spec fn jsonl_records(lines: Seq<Seq<char>>) -> Seq<Seq<char>>
    decreases lines.len(),
{
    if lines.len() == 0 {
        Seq::empty()
    } else {
        let rest = jsonl_records(lines.drop_last());
        if trim(lines.last()).len() == 0 {
            rest
        } else {
            rest.push(trim(lines.last()))
        }
    }
}

/// The first record that does not parse as JSON, with its error.
pub open spec fn first_bad_record(records: Seq<Seq<char>>) -> Option<Seq<char>>
    decreases records.len(),
{
    if records.len() == 0 {
        None
    } else {
        match json_parse_error(records[0]) {
            Some(e) => Some(e),
            None => first_bad_record(records.drop_first()),
        }
    }
}

/// The page opened when no canvas host page is found.
pub open spec fn fallback_canvas_page_of(session: Seq<char>) -> Seq<char> {
    "canvas.html?session="@ + session
}

/// The page opened when no canvas host page is found (`canvas.html?session=<session>`).
pub fn fallback_canvas_page(session: &str) -> (r: String)
    ensures
        r@ == fallback_canvas_page_of(session@),
{
    let mut s = String::from_str("canvas.html?session=");
    s.append(session);
    s
}

/// Where the canvas scaffold page may be, in the order tried: three places under the
/// repository root when it is known, then next to the app's sources, in the Linux and
/// shared resources, and the bundled A2UI host.
pub open spec fn scaffold_candidates(manifest_dir: Seq<char>, repo_root: Option<Seq<char>>) -> Seq<
    Seq<char>,
> {
    let base = seq![
        path_join(manifest_dir, "../../resources/canvas-scaffold/scaffold.html"@),
        "apps/linux/resources/canvas-scaffold/scaffold.html"@,
        "apps/shared/OpenClawKit/Sources/OpenClawKit/Resources/CanvasScaffold/scaffold.html"@,
        "dist/canvas-host/a2ui/index.html"@,
    ];
    match repo_root {
        Some(root) => seq![
            path_join(root, "apps/linux/resources/canvas-scaffold/scaffold.html"@),
            path_join(
                root,
                "apps/shared/OpenClawKit/Sources/OpenClawKit/Resources/CanvasScaffold/scaffold.html"@,
            ),
            path_join(root, "dist/canvas-host/a2ui/index.html"@),
        ] + base,
        None => base,
    }
}

/// Where the bundled A2UI host page may be, in the order tried: two places under the
/// repository root when it is known, then next to the app's sources, in the Linux
/// resources, the built canvas host and the extension sources.
pub open spec fn a2ui_candidates(manifest_dir: Seq<char>, repo_root: Option<Seq<char>>) -> Seq<
    Seq<char>,
> {
    let base = seq![
        path_join(manifest_dir, "../../resources/a2ui/index.html"@),
        "apps/linux/resources/a2ui/index.html"@,
        "dist/canvas-host/a2ui/index.html"@,
        "extensions/canvas/src/host/a2ui/index.html"@,
    ];
    match repo_root {
        Some(root) => seq![
            path_join(root, "apps/linux/resources/a2ui/index.html"@),
            path_join(root, "dist/canvas-host/a2ui/index.html"@),
        ] + base,
        None => base,
    }
}

/// The candidate scaffold pages (see `scaffold_candidates`).
pub fn canvas_scaffold_candidates(manifest_dir: &str, repo_root: Option<&str>) -> (r: Vec<String>)
    ensures
        views(r@) == scaffold_candidates(manifest_dir@, opt_view(repo_root)),
{
    let mut v: Vec<String> = Vec::new();
    match repo_root {
        Some(root) => {
            v.push(join_path(root, "apps/linux/resources/canvas-scaffold/scaffold.html"));
            v.push(
                join_path(
                    root,
                    "apps/shared/OpenClawKit/Sources/OpenClawKit/Resources/CanvasScaffold/scaffold.html",
                ),
            );
            v.push(join_path(root, "dist/canvas-host/a2ui/index.html"));
        },
        None => {},
    }
    v.push(join_path(manifest_dir, "../../resources/canvas-scaffold/scaffold.html"));
    v.push(String::from_str("apps/linux/resources/canvas-scaffold/scaffold.html"));
    v.push(
        String::from_str(
            "apps/shared/OpenClawKit/Sources/OpenClawKit/Resources/CanvasScaffold/scaffold.html",
        ),
    );
    v.push(String::from_str("dist/canvas-host/a2ui/index.html"));
    assert(views(v@) =~= scaffold_candidates(manifest_dir@, opt_view(repo_root)));
    v
}

/// The candidate A2UI host pages (see `a2ui_candidates`).
pub fn a2ui_index_candidates(manifest_dir: &str, repo_root: Option<&str>) -> (r: Vec<String>)
    ensures
        views(r@) == a2ui_candidates(manifest_dir@, opt_view(repo_root)),
{
    let mut v: Vec<String> = Vec::new();
    match repo_root {
        Some(root) => {
            v.push(join_path(root, "apps/linux/resources/a2ui/index.html"));
            v.push(join_path(root, "dist/canvas-host/a2ui/index.html"));
        },
        None => {},
    }
    v.push(join_path(manifest_dir, "../../resources/a2ui/index.html"));
    v.push(String::from_str("apps/linux/resources/a2ui/index.html"));
    v.push(String::from_str("dist/canvas-host/a2ui/index.html"));
    v.push(String::from_str("extensions/canvas/src/host/a2ui/index.html"));
    assert(views(v@) =~= a2ui_candidates(manifest_dir@, opt_view(repo_root)));
    v
}

/// The canvas scaffold page: the first candidate that exists.
pub fn resolve_canvas_scaffold(manifest_dir: &str, repo_root: Option<&str>) -> (r: Option<String>)
    ensures
        is_first_accepted(scaffold_candidates(manifest_dir@, opt_view(repo_root)), opt_string(r)),
{
    first_existing(canvas_scaffold_candidates(manifest_dir, repo_root))
}

/// The bundled A2UI host page: the first candidate that exists.
pub fn resolve_a2ui_index(manifest_dir: &str, repo_root: Option<&str>) -> (r: Option<String>)
    ensures
        is_first_accepted(a2ui_candidates(manifest_dir@, opt_view(repo_root)), opt_string(r)),
{
    first_existing(a2ui_index_candidates(manifest_dir, repo_root))
}

proof fn lemma_first_bad_concat(a: Seq<Seq<char>>, b: Seq<Seq<char>>)
    ensures
        first_bad_record(a + b) == match first_bad_record(a) {
            Some(e) => Some(e),
            None => first_bad_record(b),
        },
    decreases a.len(),
{
    if a.len() == 0 {
        assert(a + b =~= b);
    } else {
        assert((a + b).drop_first() =~= a.drop_first() + b);
        assert((a + b)[0] == a[0]);
        lemma_first_bad_concat(a.drop_first(), b);
    }
}

proof fn lemma_records_concat(a: Seq<Seq<char>>, b: Seq<Seq<char>>)
    ensures
        jsonl_records(a + b) == jsonl_records(a) + jsonl_records(b),
    decreases b.len(),
{
    if b.len() == 0 {
        assert(a + b =~= a);
        assert(jsonl_records(a) + jsonl_records(b) =~= jsonl_records(a));
    } else {
        assert((a + b).drop_last() =~= a + b.drop_last());
        assert((a + b).last() == b.last());
        lemma_records_concat(a, b.drop_last());
        let x = jsonl_records(a);
        let y = jsonl_records(b.drop_last());
        if trim(b.last()).len() > 0 {
            assert((x + y).push(trim(b.last())) =~= x + y.push(trim(b.last())));
        }
    }
}

/// Decodes A2UI messages given as JSON Lines: each non-blank line, trimmed, parsed as
/// JSON, in order; the first line that does not parse fails the whole text with its error.
pub fn decode_jsonl_messages(jsonl: &str) -> (r: Result<Vec<serde_json::Value>, String>)
    ensures
        match first_bad_record(jsonl_records(lines_of(jsonl@))) {
            None => r matches Ok(v) && v@.len() == jsonl_records(lines_of(jsonl@)).len() && forall|k: int|
                0 <= k < v@.len() ==> #[trigger] v@[k] == json_value_of(jsonl_records(lines_of(jsonl@))[k]),
            Some(e) => r matches Err(m) && m@ == e,
        },
{
    let lines = text_lines(jsonl);
    let ghost ls = lines_of(jsonl@);
    let mut out: Vec<serde_json::Value> = Vec::new();
    let mut i: usize = 0;
    proof {
        assert(ls.take(0) =~= Seq::<Seq<char>>::empty());
    }
    while i < lines.len()
        invariant
            i <= lines.len(),
            ls == lines_of(jsonl@),
            views(lines@) == ls,
            first_bad_record(jsonl_records(ls.take(i as int))) is None,
            out@.len() == jsonl_records(ls.take(i as int)).len(),
            forall|k: int|
                0 <= k < out@.len() ==> #[trigger] out@[k] == json_value_of(jsonl_records(ls.take(i as int))[k]),
        decreases lines.len() - i,
    {
        let ghost before = jsonl_records(ls.take(i as int));
        proof {
            assert(ls.take(i + 1).drop_last() =~= ls.take(i as int));
            assert(ls.take(i + 1).last() == ls[i as int]);
            assert(lines@[i as int]@ == ls[i as int]);
        }
        let t = trim_string(lines[i].as_str());
        if !t.as_str().is_empty() {
            proof {
                lemma_first_bad_concat(before, seq![t@]);
                assert(before.push(t@) =~= before + seq![t@]);
                assert(first_bad_record(seq![t@]) == json_parse_error(t@)) by {
                    reveal_with_fuel(first_bad_record, 2);
                    assert(seq![t@].drop_first() =~= Seq::<Seq<char>>::empty());
                }
            }
            match parse_json(t.as_str()) {
                Ok(v) => {
                    out.push(v);
                },
                Err(e) => {
                    proof {
                        assert(ls =~= ls.take(i + 1) + ls.skip(i + 1));
                        lemma_records_concat(ls.take(i + 1), ls.skip(i + 1));
                        lemma_first_bad_concat(
                            jsonl_records(ls.take(i + 1)),
                            jsonl_records(ls.skip(i + 1)),
                        );
                    }
                    return Err(e);
                },
            }
        }
        i = i + 1;
    }
    proof {
        assert(ls.take(i as int) =~= ls);
    }
    Ok(out)
}

/// Where the A2UI messages of a push come from.
#[derive(Debug, Clone, PartialEq, Eq)]
pub enum A2uiSource {
    /// The `messages` array as given.
    Messages,
    /// The `jsonl` text, to decode.
    Jsonl(String),
}

/// Picks the source of a push's messages: a JSONL push needs `jsonl`; otherwise a
/// `messages` array wins, then `jsonl`; with neither it is an error.
pub fn a2ui_source(jsonl_mode: bool, has_messages_array: bool, jsonl: Option<String>) -> (r: Result<
    A2uiSource,
    String,
>)
    ensures
        jsonl_mode ==> match jsonl {
            Some(t) => r matches Ok(A2uiSource::Jsonl(u)) && u@ == t@,
            None => r matches Err(e) && e@ == "jsonl required"@,
        },
        !jsonl_mode && has_messages_array ==> r matches Ok(A2uiSource::Messages),
        !jsonl_mode && !has_messages_array ==> match jsonl {
            Some(t) => r matches Ok(A2uiSource::Jsonl(u)) && u@ == t@,
            None => r matches Err(e) && e@ == "messages or jsonl required"@,
        },
{
    if jsonl_mode {
        return match jsonl {
            Some(t) => Ok(A2uiSource::Jsonl(t)),
            None => Err(String::from_str("jsonl required")),
        };
    }
    if has_messages_array {
        return Ok(A2uiSource::Messages);
    }
    match jsonl {
        Some(t) => Ok(A2uiSource::Jsonl(t)),
        None => Err(String::from_str("messages or jsonl required")),
    }
}

/// A route that reaches a handler.
pub open spec fn handled(r: NodeCommand) -> bool {
    r != NodeCommand::Unsupported && r != NodeCommand::UnsupportedCanvas
}

/// Every command a node advertises reaches a handler, whatever capture flags are set.
pub proof fn law_advertised_commands_are_handled(camera: bool, location: bool, screen: bool, talk: bool)
    ensures
        forall|i: int|
            0 <= i < crate::node_caps::advertised_commands(camera, location, screen, talk).len()
                ==> handled(
                node_route(#[trigger] crate::node_caps::advertised_commands(camera, location, screen, talk)[i]),
            ),
{
    reveal_strlit("camera.clip");
    reveal_strlit("camera.list");
    reveal_strlit("camera.snap");
    reveal_strlit("canvas.");
    reveal_strlit("canvas.a2ui.push");
    reveal_strlit("canvas.a2ui.pushJSONL");
    reveal_strlit("canvas.a2ui.reset");
    reveal_strlit("canvas.eval");
    reveal_strlit("canvas.hide");
    reveal_strlit("canvas.navigate");
    reveal_strlit("canvas.present");
    reveal_strlit("canvas.snapshot");
    reveal_strlit("location.get");
    reveal_strlit("screen.record");
    reveal_strlit("screen.snapshot");
    reveal_strlit("system.execApprovals.get");
    reveal_strlit("system.execApprovals.set");
    reveal_strlit("system.notify");
    reveal_strlit("system.run");
    reveal_strlit("system.run.prepare");
    reveal_strlit("system.which");
    reveal_strlit("talk.ptt.");
    reveal_strlit("talk.ptt.cancel");
    reveal_strlit("talk.ptt.once");
    reveal_strlit("talk.ptt.start");
    reveal_strlit("talk.ptt.stop");
    assert("canvas.present"@.subrange(0, 7) =~= "canvas."@);
    assert("canvas.present"@.subrange(0, 9)[0] != "talk.ptt."@[0]);
    assert("canvas.present"@[0] != "talk.ptt.start"@[0]);
    assert(handled(node_route("canvas.present"@)));
    assert("canvas.hide"@[2] != "camera.snap"@[2]);
    assert("canvas.hide"@[2] != "camera.clip"@[2]);
    assert("canvas.hide"@[2] != "camera.list"@[2]);
    assert("canvas.hide"@.subrange(0, 7) =~= "canvas."@);
    assert("canvas.hide"@.subrange(0, 9)[0] != "talk.ptt."@[0]);
    assert(handled(node_route("canvas.hide"@)));
    assert("canvas.navigate"@[0] != "screen.snapshot"@[0]);
    assert("canvas.navigate"@.subrange(0, 7) =~= "canvas."@);
    assert("canvas.navigate"@.subrange(0, 9)[0] != "talk.ptt."@[0]);
    assert("canvas.navigate"@[0] != "talk.ptt.cancel"@[0]);
    assert(handled(node_route("canvas.navigate"@)));
    assert("canvas.eval"@[2] != "camera.snap"@[2]);
    assert("canvas.eval"@[2] != "camera.clip"@[2]);
    assert("canvas.eval"@[2] != "camera.list"@[2]);
    assert("canvas.eval"@.subrange(0, 7) =~= "canvas."@);
    assert("canvas.eval"@.subrange(0, 9)[0] != "talk.ptt."@[0]);
    assert("canvas.eval"@[7] != "canvas.hide"@[7]);
    assert(handled(node_route("canvas.eval"@)));
    assert("canvas.snapshot"@[0] != "screen.snapshot"@[0]);
    assert("canvas.snapshot"@.subrange(0, 7) =~= "canvas."@);
    assert("canvas.snapshot"@.subrange(0, 9)[0] != "talk.ptt."@[0]);
    assert("canvas.snapshot"@[0] != "talk.ptt.cancel"@[0]);
    assert("canvas.snapshot"@[7] != "canvas.navigate"@[7]);
    assert(handled(node_route("canvas.snapshot"@)));
    assert("canvas.a2ui.push"@.subrange(0, 7) =~= "canvas."@);
    assert("canvas.a2ui.push"@.subrange(0, 9)[0] != "talk.ptt."@[0]);
    assert(handled(node_route("canvas.a2ui.push"@)));
    assert("canvas.a2ui.pushJSONL"@.subrange(0, 7) =~= "canvas."@);
    assert("canvas.a2ui.pushJSONL"@.subrange(0, 9)[0] != "talk.ptt."@[0]);
    assert(handled(node_route("canvas.a2ui.pushJSONL"@)));
    assert("canvas.a2ui.reset"@.subrange(0, 7) =~= "canvas."@);
    assert("canvas.a2ui.reset"@.subrange(0, 9)[0] != "talk.ptt."@[0]);
    assert(handled(node_route("canvas.a2ui.reset"@)));
    assert("screen.snapshot"@.subrange(0, 7)[0] != "canvas."@[0]);
    assert("screen.snapshot"@.subrange(0, 9)[0] != "talk.ptt."@[0]);
    assert(handled(node_route("screen.snapshot"@)));
    assert("system.notify"@.subrange(0, 7)[0] != "canvas."@[0]);
    assert("system.notify"@.subrange(0, 9)[0] != "talk.ptt."@[0]);
    assert(handled(node_route("system.notify"@)));
    assert("system.which"@.subrange(0, 7)[0] != "canvas."@[0]);
    assert("system.which"@.subrange(0, 9)[0] != "talk.ptt."@[0]);
    assert(handled(node_route("system.which"@)));
    assert("system.run"@.subrange(0, 7)[0] != "canvas."@[0]);
    assert("system.run"@.subrange(0, 9)[0] != "talk.ptt."@[0]);
    assert(handled(node_route("system.run"@)));
    assert("system.run.prepare"@.subrange(0, 7)[0] != "canvas."@[0]);
    assert("system.run.prepare"@.subrange(0, 9)[0] != "talk.ptt."@[0]);
    assert(handled(node_route("system.run.prepare"@)));
    assert("system.execApprovals.get"@.subrange(0, 7)[0] != "canvas."@[0]);
    assert("system.execApprovals.get"@.subrange(0, 9)[0] != "talk.ptt."@[0]);
    assert(handled(node_route("system.execApprovals.get"@)));
    assert("system.execApprovals.set"@.subrange(0, 7)[0] != "canvas."@[0]);
    assert("system.execApprovals.set"@.subrange(0, 9)[0] != "talk.ptt."@[0]);
    assert("system.execApprovals.set"@[21] != "system.execApprovals.get"@[21]);
    assert(handled(node_route("system.execApprovals.set"@)));
    assert("screen.record"@[1] != "system.notify"@[1]);
    assert("screen.record"@.subrange(0, 7)[0] != "canvas."@[0]);
    assert("screen.record"@.subrange(0, 9)[0] != "talk.ptt."@[0]);
    assert(handled(node_route("screen.record"@)));
    assert("camera.list"@[7] != "camera.snap"@[7]);
    assert("camera.list"@[7] != "camera.clip"@[7]);
    assert("camera.list"@.subrange(0, 7)[2] != "canvas."@[2]);
    assert("camera.list"@.subrange(0, 9)[0] != "talk.ptt."@[0]);
    assert(handled(node_route("camera.list"@)));
    assert("camera.snap"@.subrange(0, 7)[2] != "canvas."@[2]);
    assert("camera.snap"@.subrange(0, 9)[0] != "talk.ptt."@[0]);
    assert(handled(node_route("camera.snap"@)));
    assert("camera.clip"@[7] != "camera.snap"@[7]);
    assert("camera.clip"@.subrange(0, 7)[2] != "canvas."@[2]);
    assert("camera.clip"@.subrange(0, 9)[0] != "talk.ptt."@[0]);
    assert(handled(node_route("camera.clip"@)));
    assert("location.get"@[0] != "system.which"@[0]);
    assert("location.get"@.subrange(0, 7)[0] != "canvas."@[0]);
    assert("location.get"@.subrange(0, 9)[0] != "talk.ptt."@[0]);
    assert(handled(node_route("location.get"@)));
    assert("talk.ptt.start"@.subrange(0, 7)[0] != "canvas."@[0]);
    assert("talk.ptt.start"@.subrange(0, 9) =~= "talk.ptt."@);
    assert("talk.ptt.start"@[0] != "canvas.present"@[0]);
    assert(handled(node_route("talk.ptt.start"@)));
    assert("talk.ptt.stop"@[0] != "system.notify"@[0]);
    assert("talk.ptt.stop"@[0] != "screen.record"@[0]);
    assert("talk.ptt.stop"@.subrange(0, 7)[0] != "canvas."@[0]);
    assert("talk.ptt.stop"@.subrange(0, 9) =~= "talk.ptt."@);
    assert(handled(node_route("talk.ptt.stop"@)));
    assert("talk.ptt.cancel"@[0] != "screen.snapshot"@[0]);
    assert("talk.ptt.cancel"@.subrange(0, 7)[0] != "canvas."@[0]);
    assert("talk.ptt.cancel"@.subrange(0, 9) =~= "talk.ptt."@);
    assert("talk.ptt.cancel"@[0] != "canvas.navigate"@[0]);
    assert("talk.ptt.cancel"@[0] != "canvas.snapshot"@[0]);
    assert(handled(node_route("talk.ptt.cancel"@)));
    assert("talk.ptt.once"@[0] != "system.notify"@[0]);
    assert("talk.ptt.once"@[0] != "screen.record"@[0]);
    assert("talk.ptt.once"@.subrange(0, 7)[0] != "canvas."@[0]);
    assert("talk.ptt.once"@.subrange(0, 9) =~= "talk.ptt."@);
    assert("talk.ptt.once"@[9] != "talk.ptt.stop"@[9]);
    assert(handled(node_route("talk.ptt.once"@)));
}

/// A handler that a command actually reaches (not one of the "unsupported" answers).
pub open spec fn is_handler(r: NodeCommand) -> bool {
    !(r is Unsupported) && !(r is UnsupportedCanvas)
}

/// The one command text that reaches each handler: the handler's wire name.
pub open spec fn handler_command(r: NodeCommand) -> Seq<char> {
    match r {
        NodeCommand::SystemWhich => "system.which"@,
        NodeCommand::SystemRun => "system.run"@,
        NodeCommand::SystemNotify => "system.notify"@,
        NodeCommand::ScreenSnapshot => "screen.snapshot"@,
        NodeCommand::CameraSnap => "camera.snap"@,
        NodeCommand::CameraClip => "camera.clip"@,
        NodeCommand::ScreenRecord => "screen.record"@,
        NodeCommand::CameraList => "camera.list"@,
        NodeCommand::LocationGet => "location.get"@,
        NodeCommand::ExecApprovalsGet => "system.execApprovals.get"@,
        NodeCommand::ExecApprovalsSet => "system.execApprovals.set"@,
        NodeCommand::RunPrepare => "system.run.prepare"@,
        NodeCommand::PttStart => "talk.ptt.start"@,
        NodeCommand::PttStop => "talk.ptt.stop"@,
        NodeCommand::PttCancel => "talk.ptt.cancel"@,
        NodeCommand::PttOnce => "talk.ptt.once"@,
        NodeCommand::CanvasPresent => "canvas.present"@,
        NodeCommand::CanvasHide => "canvas.hide"@,
        NodeCommand::CanvasNavigate => "canvas.navigate"@,
        NodeCommand::CanvasEval => "canvas.eval"@,
        NodeCommand::CanvasSnapshot => "canvas.snapshot"@,
        NodeCommand::A2uiReset => "canvas.a2ui.reset"@,
        NodeCommand::A2uiPush => "canvas.a2ui.push"@,
        NodeCommand::A2uiPushJsonl => "canvas.a2ui.pushJSONL"@,
        NodeCommand::UnsupportedCanvas => Seq::empty(),
        NodeCommand::Unsupported => Seq::empty(),
    }
}

/// A command that reaches a handler is that handler's own wire name: `camera.clip` runs the
/// clip handler, `camera.snap` the snapshot handler, and so on for every handler.
pub proof fn law_route_names_its_command(c: Seq<char>)
    ensures
        is_handler(node_route(c)) ==> c == handler_command(node_route(c)),
{
}

/// Routing never merges two commands: two different command texts that reach a handler
/// reach different handlers, so each command runs its own handler.
pub proof fn law_routing_is_injective(a: Seq<char>, b: Seq<char>)
    ensures
        is_handler(node_route(a)) && node_route(a) == node_route(b) ==> a == b,
{
    law_route_names_its_command(a);
    law_route_names_its_command(b);
}

} // verus!
