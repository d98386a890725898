//! Tray tooltip text.
use vstd::prelude::*;
use crate::text::{trim, trim_string};

verus! {

/// The tooltip for a connection status line: the product name, followed by
/// the trimmed status when there is one.
pub open spec fn tray_tooltip(status: Seq<char>) -> Seq<char> {
    if trim(status).len() == 0 {
        "OpenClaw"@
    } else {
        "OpenClaw — "@ + trim(status)
    }
}

/// The operator/node/tunnel slots, joined by `" · "`.
pub open spec fn health_slots(operator: bool, node: bool, tunnel: bool) -> Seq<char> {
    (if operator { "operator ✓"@ } else { "operator ✗"@ }) + " · "@ + (if node {
        "node ✓"@
    } else {
        "node ✗"@
    }) + (if tunnel { " · tunnel ✓"@ } else { Seq::empty() })
}

/// The tooltip with connection slots and, when present, the trimmed status detail.
pub open spec fn tray_tooltip_health(
    operator: bool,
    node: bool,
    tunnel: bool,
    status: Seq<char>,
) -> Seq<char> {
    "OpenClaw — "@ + health_slots(operator, node, tunnel) + (if trim(status).len() == 0 {
        Seq::empty()
    } else {
        " — "@ + trim(status)
    })
}

/// Tray tooltip text from the latest gateway/operator connection status line.
pub fn format_tray_tooltip(connection_status: &str) -> (r: String)
    ensures
        r@ == tray_tooltip(connection_status@),
{
    let status = trim_string(connection_status);
    if status.as_str().is_empty() {
        String::from_str("OpenClaw")
    } else {
        let mut out = String::from_str("OpenClaw — ");
        out.append(status.as_str());
        out
    }
}

/// Tray tooltip with operator/node/tunnel slots (matches the settings connection bar).
pub fn format_tray_tooltip_health(
    operator_connected: bool,
    node_connected: bool,
    ssh_tunnel_active: bool,
    connection_status: &str,
) -> (r: String)
    ensures
        r@ == tray_tooltip_health(
            operator_connected,
            node_connected,
            ssh_tunnel_active,
            connection_status@,
        ),
{
    let mut out = String::from_str("OpenClaw — ");
    if operator_connected {
        out.append("operator ✓");
    } else {
        out.append("operator ✗");
    }
    out.append(" · ");
    if node_connected {
        out.append("node ✓");
    } else {
        out.append("node ✗");
    }
    if ssh_tunnel_active {
        out.append(" · tunnel ✓");
    }
    let detail = trim_string(connection_status);
    if !detail.as_str().is_empty() {
        out.append(" — ");
        out.append(detail.as_str());
    }
    assert(out@ =~= tray_tooltip_health(
        operator_connected,
        node_connected,
        ssh_tunnel_active,
        connection_status@,
    ));
    out
}

/// What a tray menu entry does.
#[derive(Debug, Clone, Copy, PartialEq, Eq, Structural)]
pub enum TrayAction {
    OpenDashboard,
    OpenWebChat,
    OpenSettings,
    Quit,
    Nothing,
}

/// The tray menu: entry ids and labels, in order.
pub open spec fn tray_menu_spec() -> Seq<(Seq<char>, Seq<char>)> {
    seq![
        ("dashboard"@, "Open Dashboard"@),
        ("webchat"@, "Open WebChat"@),
        ("settings"@, "Settings"@),
        ("quit"@, "Quit"@),
    ]
}

/// The tray menu entries (see `tray_menu_spec`).
pub fn tray_menu_items() -> (r: Vec<(String, String)>)
    ensures
        r@.len() == tray_menu_spec().len(),
        forall|i: int|
            0 <= i < r@.len() ==> (#[trigger] r@[i]).0@ == tray_menu_spec()[i].0 && r@[i].1@
                == tray_menu_spec()[i].1,
{
    let mut v: Vec<(String, String)> = Vec::new();
    v.push((String::from_str("dashboard"), String::from_str("Open Dashboard")));
    v.push((String::from_str("webchat"), String::from_str("Open WebChat")));
    v.push((String::from_str("settings"), String::from_str("Settings")));
    v.push((String::from_str("quit"), String::from_str("Quit")));
    v
}

/// The action of a tray menu entry id.
pub open spec fn tray_action_of(id: Seq<char>) -> TrayAction {
    if id == "dashboard"@ {
        TrayAction::OpenDashboard
    } else if id == "webchat"@ {
        TrayAction::OpenWebChat
    } else if id == "settings"@ {
        TrayAction::OpenSettings
    } else if id == "quit"@ {
        TrayAction::Quit
    } else {
        TrayAction::Nothing
    }
}

/// The action of a tray menu entry id (see `tray_action_of`).
pub fn tray_menu_action(id: &str) -> (r: TrayAction)
    ensures
        r == tray_action_of(id@),
{
    if crate::text::str_eq(id, "dashboard") {
        TrayAction::OpenDashboard
    } else if crate::text::str_eq(id, "webchat") {
        TrayAction::OpenWebChat
    } else if crate::text::str_eq(id, "settings") {
        TrayAction::OpenSettings
    } else if crate::text::str_eq(id, "quit") {
        TrayAction::Quit
    } else {
        TrayAction::Nothing
    }
}

} // verus!
