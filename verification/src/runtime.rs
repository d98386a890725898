//! Decisions of the background connection loops: retry backoff, the status line, the
//! SSH tunnel (when to run, restart or stop it, and its `ssh` arguments) and how a
//! gateway deep link changes the settings.
use vstd::prelude::*;
use crate::device_auth::views;
use crate::encoding::{decimal, decimal_string};
use crate::gateway_config::{ConnectionMode, GatewayConnectionSettings};
use crate::gateway_autostart::{autostart_wanted, should_autostart_gateway};
use crate::openclaw_config::{osv, OpenClawGatewayConfig};
use crate::deep_links::{DeepLink, DeepLinkView};
use crate::gateway_host::{direct_lan, is_direct_lan_host, IpParts};
use crate::text::{clone_opt, non_blank, non_blank_of, opt_as_str, opt_view, trim, trim_string};

verus! {

/// The first retry delay of the connection loops, in seconds.
pub const INITIAL_BACKOFF_SECS: u64 = 2;

/// The longest retry delay of the connection loops, in seconds.
pub const MAX_BACKOFF_SECS: u64 = 30;

/// The retry delay after `secs`: doubled, at most 30 seconds.
pub open spec fn next_backoff(secs: u64) -> int {
    if 2 * secs < 30 {
        2 * secs
    } else {
        30
    }
}

/// The retry delay after a failed attempt that waited `secs` (see `next_backoff`).
pub fn next_backoff_secs(secs: u64) -> (r: u64)
    ensures
        r == next_backoff(secs),
{
    if secs < 15 {
        secs * 2
    } else {
        MAX_BACKOFF_SECS
    }
}

/// The retry delay after `k` consecutive failures: the initial delay, doubled (capped)
/// once per failure; a success starts again from the initial delay.
pub open spec fn backoff_after(k: nat) -> int
    decreases k,
{
    if k == 0 {
        INITIAL_BACKOFF_SECS as int
    } else {
        next_backoff(backoff_after((k - 1) as nat) as u64)
    }
}

/// `2` to the power `k`.
pub open spec fn two_pow(k: nat) -> int
    decreases k,
{
    if k == 0 {
        1
    } else {
        2 * two_pow((k - 1) as nat)
    }
}

/// After `k` consecutive failed attempts the next wait is `2^(k+1)` seconds, at most 30:
/// the waits run 2, 4, 8, 16, 30, 30, ….
pub proof fn law_backoff_doubles_to_cap(k: nat)
    ensures
        backoff_after(k) == (if two_pow(k + 1) < MAX_BACKOFF_SECS {
            two_pow(k + 1)
        } else {
            MAX_BACKOFF_SECS as int
        }),
        2 <= backoff_after(k) <= 30,
    decreases k,
{
    if k > 0 {
        law_backoff_doubles_to_cap((k - 1) as nat);
        assert(two_pow(k + 1) == 2 * two_pow(k));
        assert(two_pow(k) == 2 * two_pow((k - 1) as nat));
    } else {
        assert(two_pow(0) == 1);
        assert(two_pow(1) == 2 * two_pow(0));
    }
}

/// The status line once the node connected, after the current one.
pub open spec fn node_connected_status_of(base: Seq<char>) -> Seq<char> {
    if base.len() == 0 {
        "node connected"@
    } else {
        base + "; node connected"@
    }
}

/// The status line once the node connected (see `node_connected_status_of`).
pub fn node_connected_status(base: &str) -> (r: String)
    ensures
        r@ == node_connected_status_of(base@),
{
    if base.is_empty() {
        String::from_str("node connected")
    } else {
        let mut s = String::from_str(base);
        s.append("; node connected");
        s
    }
}

/// `<prefix><detail>`, for the status line.
pub fn prefixed_status(prefix: &str, detail: &str) -> (r: String)
    ensures
        r@ == prefix@ + detail@,
{
    let mut s = String::from_str(prefix);
    s.append(detail);
    s
}

/// The status line while the SSH tunnel forwards `port`.
pub fn tunnel_active_status(port: u16) -> (r: String)
    ensures
        r@ == "SSH tunnel active on port "@ + decimal(port as nat),
{
    let mut s = String::from_str("SSH tunnel active on port ");
    let d = decimal_string(port as u64);
    s.append(d.as_str());
    s
}

/// The status line when the watchdog finds the SSH tunnel dead.
pub fn tunnel_disconnected_status() -> (r: String)
    ensures
        r@ == "SSH tunnel disconnected; reconnecting…"@,
{
    String::from_str("SSH tunnel disconnected; reconnecting…")
}

/// What follows a restart of the SSH tunnel: the status line, how long to wait before
/// the next tick (only after a failure), and the retry delay afterwards.
#[derive(Debug, Clone)]
pub struct TunnelRestart {
    pub status: String,
    pub wait_secs: Option<u64>,
    pub next_backoff: u64,
}

/// After a restart that succeeded: the active status and the initial delay again. After
/// one that failed with `err`: the failure status, a wait of the current delay, and the
/// delay doubled (see `next_backoff`).
pub fn tunnel_restart_outcome(port: u16, result: Result<(), String>, backoff: u64) -> (r: TunnelRestart)
    ensures
        match result {
            Ok(()) => r.status@ == "SSH tunnel active on port "@ + decimal(port as nat) && r.wait_secs
                is None && r.next_backoff == INITIAL_BACKOFF_SECS,
            Err(e) => r.status@ == "SSH tunnel restart failed: "@ + e@ && r.wait_secs == Some(backoff)
                && r.next_backoff == next_backoff(backoff),
        },
{
    match result {
        Ok(()) => TunnelRestart {
            status: tunnel_active_status(port),
            wait_secs: None,
            next_backoff: INITIAL_BACKOFF_SECS,
        },
        Err(e) => TunnelRestart {
            status: prefixed_status("SSH tunnel restart failed: ", e.as_str()),
            wait_secs: Some(backoff),
            next_backoff: next_backoff_secs(backoff),
        },
    }
}

/// What the tunnel watchdog does on a tick.
#[derive(Debug, Clone, Copy, PartialEq, Eq, Structural)]
pub enum TunnelWatch {
    /// Nothing to watch or the tunnel is fine: reset the retry delay.
    ResetBackoff,
    /// No tunnel is running: wait for the next tick.
    Skip,
    /// The tunnel process died: restart it.
    Restart,
}

/// The watchdog's decision: only SSH-tunnelled remote settings are watched; a missing
/// tunnel is left alone; a dead one is restarted.
pub open spec fn tunnel_watch_of(tunnelled: bool, has_tunnel: bool, alive: bool) -> TunnelWatch {
    if !tunnelled {
        TunnelWatch::ResetBackoff
    } else if !has_tunnel {
        TunnelWatch::Skip
    } else if alive {
        TunnelWatch::ResetBackoff
    } else {
        TunnelWatch::Restart
    }
}

/// Remote settings that reach the gateway through an SSH tunnel: not direct, with an
/// SSH target that is not blank.
pub open spec fn ssh_tunnelled(s: crate::gateway_config::SettingsView) -> bool {
    s.mode == ConnectionMode::Remote && !s.remote_direct && match s.ssh_target {
        Some(t) => trim(t).len() > 0,
        None => false,
    }
}

/// The watchdog's decision for the settings (see `tunnel_watch_of`).
pub fn tunnel_watch_step(settings: &GatewayConnectionSettings, has_tunnel: bool, alive: bool) -> (r:
    TunnelWatch)
    ensures
        r == tunnel_watch_of(ssh_tunnelled(settings@), has_tunnel, alive),
{
    let tunnelled = settings.mode == ConnectionMode::Remote && settings.uses_ssh_tunnel();
    if !tunnelled {
        TunnelWatch::ResetBackoff
    } else if !has_tunnel {
        TunnelWatch::Skip
    } else if alive {
        TunnelWatch::ResetBackoff
    } else {
        TunnelWatch::Restart
    }
}

/// How the connection mode is brought about.
#[derive(Debug, Clone, Copy, PartialEq, Eq, Structural)]
pub enum ConnectionPlan {
    /// Local mode: stop any tunnel, and start the gateway when autostart applies.
    Local { autostart: bool },
    /// Remote mode over SSH: start the tunnel.
    StartTunnel,
    /// Remote mode without SSH: stop any tunnel.
    StopTunnel,
}

/// The plan for the settings: local mode stops the tunnel (and autostarts when wanted);
/// remote mode starts the tunnel when it goes over SSH and stops it otherwise.
pub open spec fn connection_plan_of(s: crate::gateway_config::SettingsView) -> ConnectionPlan {
    if s.mode == ConnectionMode::Local {
        ConnectionPlan::Local { autostart: autostart_wanted(s.mode, s.gateway_autostart) }
    } else if ssh_tunnelled(s) {
        ConnectionPlan::StartTunnel
    } else {
        ConnectionPlan::StopTunnel
    }
}

/// The plan for the settings (see `connection_plan_of`).
pub fn connection_plan(settings: &GatewayConnectionSettings) -> (r: ConnectionPlan)
    ensures
        r == connection_plan_of(settings@),
{
    if settings.mode == ConnectionMode::Local {
        return ConnectionPlan::Local { autostart: should_autostart_gateway(settings) };
    }
    if settings.uses_ssh_tunnel() {
        ConnectionPlan::StartTunnel
    } else {
        ConnectionPlan::StopTunnel
    }
}

/// What an SSH tunnel is started with.
#[derive(Debug, Clone)]
pub struct TunnelRequest {
    pub ssh_target: String,
    pub ssh_identity: Option<String>,
    pub remote_port: u16,
    pub local_port: u16,
}

/// The tunnel for the settings: their SSH target and identity, the gateway's remote port
/// and the saved port locally; remote mode needs an SSH target.
pub fn tunnel_request(settings: &GatewayConnectionSettings, gateway: &OpenClawGatewayConfig) -> (r:
    Result<TunnelRequest, String>)
    ensures
        settings.ssh_target is None ==> (r matches Err(e) && e@
            == "remote mode requires gateway.remote.sshTarget"@),
        settings.ssh_target is Some ==> (r matches Ok(t) && Some(t.ssh_target@)
            == settings@.ssh_target && osv(t.ssh_identity) == settings@.ssh_identity
            && t.remote_port == (match gateway.remote_port {
            Some(p) => p,
            None => match gateway.port {
                Some(p) => p,
                None => 18789,
            },
        }) && t.local_port == settings.port),
{
    let target = match &settings.ssh_target {
        Some(t) => t.clone(),
        None => return Err(String::from_str("remote mode requires gateway.remote.sshTarget")),
    };
    Ok(TunnelRequest {
        ssh_target: target,
        ssh_identity: clone_opt(&settings.ssh_identity),
        remote_port: GatewayConnectionSettings::remote_gateway_port(gateway),
        local_port: settings.port,
    })
}

/// The `ssh` arguments of a tunnel forwarding `local_port` to the gateway's
/// `remote_port` on the target: batch mode, keep-alives, no command, the identity when
/// it is not blank (trimmed), the target trimmed.
pub open spec fn ssh_args_of(
    target: Seq<char>,
    identity: Option<Seq<char>>,
    remote_port: u16,
    local_port: u16,
) -> Seq<Seq<char>> {
    seq![
        "-o"@,
        "BatchMode=yes"@,
        "-o"@,
        "ExitOnForwardFailure=yes"@,
        "-o"@,
        "ServerAliveInterval=15"@,
        "-o"@,
        "ServerAliveCountMax=3"@,
        "-o"@,
        "TCPKeepAlive=yes"@,
        "-n"@,
        "-N"@,
        "-L"@,
        decimal(local_port as nat) + ":127.0.0.1:"@ + decimal(remote_port as nat),
    ] + (match non_blank(identity) {
        Some(i) => seq!["-i"@, i],
        None => Seq::empty(),
    }) + seq![trim(target)]
}

/// The `ssh` arguments of a tunnel (see `ssh_args_of`); a blank target is an error.
pub fn ssh_tunnel_args(
    ssh_target: &str,
    ssh_identity: Option<&str>,
    remote_port: u16,
    local_port: u16,
) -> (r: Result<Vec<String>, String>)
    ensures
        trim(ssh_target@).len() == 0 ==> (r matches Err(e) && e@
            == "gateway.remote.sshTarget is empty"@),
        trim(ssh_target@).len() > 0 ==> (r matches Ok(v) && views(v@) == ssh_args_of(
            ssh_target@,
            opt_view(ssh_identity),
            remote_port,
            local_port,
        )),
{
    let target = trim_string(ssh_target);
    if target.as_str().is_empty() {
        return Err(String::from_str("gateway.remote.sshTarget is empty"));
    }
    let mut forward = decimal_string(local_port as u64);
    forward.append(":127.0.0.1:");
    let rp = decimal_string(remote_port as u64);
    forward.append(rp.as_str());
    let mut v: Vec<String> = Vec::new();
    v.push(String::from_str("-o"));
    v.push(String::from_str("BatchMode=yes"));
    v.push(String::from_str("-o"));
    v.push(String::from_str("ExitOnForwardFailure=yes"));
    v.push(String::from_str("-o"));
    v.push(String::from_str("ServerAliveInterval=15"));
    v.push(String::from_str("-o"));
    v.push(String::from_str("ServerAliveCountMax=3"));
    v.push(String::from_str("-o"));
    v.push(String::from_str("TCPKeepAlive=yes"));
    v.push(String::from_str("-n"));
    v.push(String::from_str("-N"));
    v.push(String::from_str("-L"));
    v.push(forward);
    let ghost head = views(v@);
    match non_blank_of(ssh_identity) {
        Some(i) => {
            v.push(String::from_str("-i"));
            v.push(i);
        },
        None => {},
    }
    v.push(target);
    assert(views(v@) =~= ssh_args_of(ssh_target@, opt_view(ssh_identity), remote_port, local_port));
    Ok(v)
}

/// Whether a gateway link's host is a LAN host (see `direct_lan`); `host_ip` is the host
/// read as an IP address, when it is one.
pub open spec fn link_host_is_lan(host: Option<Seq<char>>, host_ip: Option<IpParts>) -> bool {
    match host {
        Some(h) => h.len() > 0 && direct_lan(h, host_ip),
        None => false,
    }
}

/// Applies an `openclaw://gateway` link: a non-empty host and a port replace the saved
/// ones, and a link to a LAN host switches to local mode, where the WebSocket goes to the
/// host directly and no SSH tunnel is used; nothing else changes. `host_ip` is the link's
/// host read as an IP address, when it is one.
pub fn apply_gateway_link(
    settings: &mut GatewayConnectionSettings,
    host: Option<String>,
    port: Option<u16>,
    host_ip: Option<IpParts>,
)
    ensures
        final(settings)@ == (crate::gateway_config::SettingsView {
            mode: if link_host_is_lan(osv(host), host_ip) {
                ConnectionMode::Local
            } else {
                old(settings).mode
            },
            host: match osv(host) {
                Some(h) => if h.len() > 0 {
                    Some(h)
                } else {
                    old(settings)@.host
                },
                None => old(settings)@.host,
            },
            port: match port {
                Some(p) => p,
                None => old(settings).port,
            },
            ..old(settings)@
        }),
{
    match host {
        Some(h) => {
            if !h.as_str().is_empty() {
                if is_direct_lan_host(h.as_str(), host_ip) {
                    settings.mode = ConnectionMode::Local;
                }
                settings.host = Some(h);
            }
        },
        None => {},
    }
    match port {
        Some(p) => settings.port = p,
        None => {},
    }
}

/// What the app does for a deep link.
#[derive(Debug, Clone)]
pub enum DeepLinkAction {
    OpenDashboard,
    /// Open WebChat, remembering the session when one is given.
    OpenWebChat { session: Option<String> },
    OpenSettings,
    OpenCanvas { session: String },
    /// Apply the gateway host and port, restart the clients, and open Settings.
    ApplyGateway { host: Option<String>, port: Option<u16> },
    /// Hand the message to the UI, then open WebChat on the session when one is given,
    /// else the dashboard.
    Agent { message: String, session: Option<String> },
}

/// The WebChat session an agent link opens: its session when not blank.
pub open spec fn agent_session(session: Option<Seq<char>>) -> Option<Seq<char>> {
    non_blank(session)
}

/// What a deep link asks of the app: dashboard, settings and WebChat links open their
/// windows (WebChat on the link's session); a canvas link opens the canvas on its
/// session, `main` when none is given; a gateway link applies its host and port; an
/// agent link passes its message on and opens WebChat on its session when one is given
/// and not blank, else the dashboard.
pub open spec fn deep_link_action_of(link: DeepLinkView) -> DeepLinkActionView {
    match link {
        DeepLinkView::Dashboard => DeepLinkActionView::OpenDashboard,
        DeepLinkView::WebChat { session } => DeepLinkActionView::OpenWebChat { session },
        DeepLinkView::Settings => DeepLinkActionView::OpenSettings,
        DeepLinkView::Canvas { session } => DeepLinkActionView::OpenCanvas {
            session: match session {
                Some(s) => s,
                None => "main"@,
            },
        },
        DeepLinkView::Gateway { host, port } => DeepLinkActionView::ApplyGateway { host, port },
        DeepLinkView::Agent { message, session, .. } => DeepLinkActionView::Agent {
            message,
            session: agent_session(session),
        },
    }
}

/// What a `DeepLinkAction` holds, as text.
pub ghost enum DeepLinkActionView {
    OpenDashboard,
    OpenWebChat { session: Option<Seq<char>> },
    OpenSettings,
    OpenCanvas { session: Seq<char> },
    ApplyGateway { host: Option<Seq<char>>, port: Option<u16> },
    Agent { message: Seq<char>, session: Option<Seq<char>> },
}

impl View for DeepLinkAction {
    type V = DeepLinkActionView;

    open spec fn view(&self) -> DeepLinkActionView {
        match self {
            DeepLinkAction::OpenDashboard => DeepLinkActionView::OpenDashboard,
            DeepLinkAction::OpenWebChat { session } => DeepLinkActionView::OpenWebChat {
                session: osv(*session),
            },
            DeepLinkAction::OpenSettings => DeepLinkActionView::OpenSettings,
            DeepLinkAction::OpenCanvas { session } => DeepLinkActionView::OpenCanvas {
                session: session@,
            },
            DeepLinkAction::ApplyGateway { host, port } => DeepLinkActionView::ApplyGateway {
                host: osv(*host),
                port: *port,
            },
            DeepLinkAction::Agent { message, session } => DeepLinkActionView::Agent {
                message: message@,
                session: osv(*session),
            },
        }
    }
}

/// What a deep link asks of the app (see `deep_link_action_of`).
pub fn deep_link_action(link: DeepLink) -> (r: DeepLinkAction)
    ensures
        r@ == deep_link_action_of(link@),
{
    match link {
        DeepLink::Dashboard => DeepLinkAction::OpenDashboard,
        DeepLink::WebChat { session } => DeepLinkAction::OpenWebChat { session },
        DeepLink::Settings => DeepLinkAction::OpenSettings,
        DeepLink::Canvas { session } => DeepLinkAction::OpenCanvas {
            session: match session {
                Some(s) => s,
                None => String::from_str("main"),
            },
        },
        DeepLink::Gateway { host, port } => DeepLinkAction::ApplyGateway { host, port },
        DeepLink::Agent { message, session, thinking: _, deliver: _ } => {
            let s = non_blank_of(opt_as_str(&session));
            DeepLinkAction::Agent { message, session: s }
        },
    }
}

/// What one watchdog tick came to: the retry delay was reset (nothing to watch or the
/// tunnel alive), nothing happened (no tunnel held), or a dead tunnel was restarted, with
/// success or not.
pub ghost enum WatchTick {
    Reset,
    Skip,
    Restarted,
    RestartFailed,
}

/// The retry delay after a run of watchdog ticks, as `tunnel_watch_step` and
/// `tunnel_restart_outcome` leave it: reset to the initial delay by a reset or a
/// successful restart, kept by a skip, and doubled (capped) by a failed restart.
pub open spec fn watchdog_backoff(ticks: Seq<WatchTick>) -> int
    decreases ticks.len(),
{
    if ticks.len() == 0 {
        INITIAL_BACKOFF_SECS as int
    } else {
        let prev = watchdog_backoff(ticks.drop_last());
        match ticks.last() {
            WatchTick::Reset => INITIAL_BACKOFF_SECS as int,
            WatchTick::Restarted => INITIAL_BACKOFF_SECS as int,
            WatchTick::Skip => prev,
            WatchTick::RestartFailed => next_backoff(prev as u64),
        }
    }
}

/// The failed restarts since the last reset or successful restart.
pub open spec fn failures_since_reset(ticks: Seq<WatchTick>) -> nat
    decreases ticks.len(),
{
    if ticks.len() == 0 {
        0
    } else {
        let prev = failures_since_reset(ticks.drop_last());
        match ticks.last() {
            WatchTick::Reset => 0,
            WatchTick::Restarted => 0,
            WatchTick::Skip => prev,
            WatchTick::RestartFailed => prev + 1,
        }
    }
}

/// Over a whole run of the watchdog, the wait taken at a failed restart is
/// `min(2^k, 30)` seconds when it is the k-th failure since the last reset or successful
/// restart: the delay after a run is that of `k` consecutive failures (see
/// `law_backoff_doubles_to_cap`).
pub proof fn law_watchdog_backoff_over_run(ticks: Seq<WatchTick>)
    ensures
        watchdog_backoff(ticks) == backoff_after(failures_since_reset(ticks)),
        2 <= watchdog_backoff(ticks) <= 30,
    decreases ticks.len(),
{
    if ticks.len() > 0 {
        law_watchdog_backoff_over_run(ticks.drop_last());
    }
    law_backoff_doubles_to_cap(failures_since_reset(ticks));
}

} // verus!
