//! Driving the `openclaw` CLI for the gateway service: which command to run, how its
//! output reads, and the start-and-wait procedure as a state machine.
use vstd::prelude::*;
use crate::cli_install::{bin_or_default, bin_override, cli_candidates, installed_location_for, resolve_openclaw_bin};
use crate::device_auth::views;
use crate::encoding::{exit_code_debug, exit_code_debug_string};
use crate::gateway_autostart::{daemon_status_fields, gateway_status_indicates_running, status_running};
use crate::paths::path_join;
use crate::text::opt_view;

verus! {

/// How long to wait between status checks while the gateway starts, in milliseconds.
pub const GATEWAY_START_POLL_MS: u64 = 500;

/// How long to wait for a started gateway to report running, in milliseconds.
pub const GATEWAY_START_TIMEOUT_MS: u64 = 45000;

/// Runs `openclaw gateway …` and `openclaw node …` for the settings window and autostart.
pub struct GatewayCli;

/// The CLI invocations the companion makes.
#[derive(Debug, Clone, Copy, PartialEq, Eq, Structural)]
pub enum GatewayCommand {
    Status,
    Install,
    Stop,
    Restart,
    Start,
    NodeInstall,
}

/// The arguments of each CLI invocation.
pub open spec fn command_args(c: GatewayCommand) -> Seq<Seq<char>> {
    match c {
        GatewayCommand::Status => seq!["gateway"@, "status"@, "--json"@, "--no-probe"@],
        GatewayCommand::Install => seq!["gateway"@, "install"@],
        GatewayCommand::Stop => seq!["gateway"@, "stop"@],
        GatewayCommand::Restart => seq!["gateway"@, "restart"@],
        GatewayCommand::Start => seq!["gateway"@, "start"@],
        GatewayCommand::NodeInstall => seq!["node"@, "install"@],
    }
}

/// The message when neither the CLI nor systemctl could start the gateway.
pub open spec fn start_failure_text(err: Seq<char>, code: Option<i32>) -> Seq<char> {
    "failed to start gateway: "@ + err + " (systemctl exit "@ + exit_code_debug(code) + ")"@
}

/// The message when a started gateway never reported running.
pub open spec fn not_ready_text() -> Seq<char> {
    "gateway did not become ready in time; run openclaw gateway install && openclaw gateway status"@
}

/// Where the start-and-wait procedure stands.
#[derive(Debug)]
pub enum EnsurePhase {
    /// Checking whether the gateway already runs.
    Probe,
    /// `openclaw gateway start` is running.
    Starting,
    /// The CLI start failed with this message; `systemctl --user start` is running.
    Fallback(String),
    /// Started; waiting for the status to report running.
    Waiting,
    /// Finished with this outcome.
    Done(Result<(), String>),
}

/// What the outside world reports back.
#[derive(Debug)]
pub enum EnsureEvent {
    /// The status check answered.
    Running(bool),
    /// `openclaw gateway start` finished.
    Started(Result<(), String>),
    /// `systemctl --user start` finished: whether it succeeded and its exit code, or why
    /// it could not run.
    Systemctl(Result<(bool, Option<i32>), String>),
    /// A poll interval passed; milliseconds since the gateway was started.
    Elapsed(u64),
}

/// What to do next.
#[derive(Debug)]
pub enum EnsureAction {
    CheckStatus,
    StartService,
    StartWithSystemctl,
    Sleep(u64),
    Finish(Result<(), String>),
}

/// The phase, as text.
pub ghost enum PhaseView {
    Probe,
    Starting,
    Fallback(Seq<char>),
    Waiting,
    Done(Result<(), Seq<char>>),
}

/// The event, as text.
pub ghost enum EventView {
    Running(bool),
    Started(Result<(), Seq<char>>),
    Systemctl(Result<(bool, Option<i32>), Seq<char>>),
    Elapsed(u64),
}

/// The action, as text.
pub ghost enum ActionView {
    CheckStatus,
    StartService,
    StartWithSystemctl,
    Sleep(u64),
    Finish(Result<(), Seq<char>>),
}

/// The view of a unit result carrying text.
pub open spec fn unit_result_view(r: Result<(), String>) -> Result<(), Seq<char>> {
    match r {
        Ok(()) => Ok(()),
        Err(e) => Err(e@),
    }
}

impl View for EnsurePhase {
    type V = PhaseView;

    open spec fn view(&self) -> PhaseView {
        match self {
            EnsurePhase::Probe => PhaseView::Probe,
            EnsurePhase::Starting => PhaseView::Starting,
            EnsurePhase::Fallback(e) => PhaseView::Fallback(e@),
            EnsurePhase::Waiting => PhaseView::Waiting,
            EnsurePhase::Done(r) => PhaseView::Done(unit_result_view(*r)),
        }
    }
}

impl View for EnsureEvent {
    type V = EventView;

    open spec fn view(&self) -> EventView {
        match self {
            EnsureEvent::Running(b) => EventView::Running(*b),
            EnsureEvent::Started(r) => EventView::Started(unit_result_view(*r)),
            EnsureEvent::Systemctl(r) => EventView::Systemctl(
                match r {
                    Ok(v) => Ok(*v),
                    Err(e) => Err(e@),
                },
            ),
            EnsureEvent::Elapsed(ms) => EventView::Elapsed(*ms),
        }
    }
}

impl View for EnsureAction {
    type V = ActionView;

    open spec fn view(&self) -> ActionView {
        match self {
            EnsureAction::CheckStatus => ActionView::CheckStatus,
            EnsureAction::StartService => ActionView::StartService,
            EnsureAction::StartWithSystemctl => ActionView::StartWithSystemctl,
            EnsureAction::Sleep(ms) => ActionView::Sleep(*ms),
            EnsureAction::Finish(r) => ActionView::Finish(unit_result_view(*r)),
        }
    }
}

/// The action a phase waits on when an event does not belong to it.
pub open spec fn pending_action(p: PhaseView) -> ActionView {
    match p {
        PhaseView::Probe => ActionView::CheckStatus,
        PhaseView::Starting => ActionView::StartService,
        PhaseView::Fallback(_) => ActionView::StartWithSystemctl,
        PhaseView::Waiting => ActionView::CheckStatus,
        PhaseView::Done(r) => ActionView::Finish(r),
    }
}

/// One step of "start the gateway only when it is not running, then wait until the
/// status reports it up": a running gateway needs nothing; otherwise start it with the
/// CLI, else with systemctl; then check the status every poll interval until it runs or
/// the timeout passes. An event that does not belong to the phase repeats the phase's
/// pending action.
pub open spec fn ensure_step(p: PhaseView, e: EventView) -> (PhaseView, ActionView) {
    match (p, e) {
        (PhaseView::Probe, EventView::Running(true)) => (
            PhaseView::Done(Ok(())),
            ActionView::Finish(Ok(())),
        ),
        (PhaseView::Probe, EventView::Running(false)) => (
            PhaseView::Starting,
            ActionView::StartService,
        ),
        (PhaseView::Starting, EventView::Started(Ok(()))) => (
            PhaseView::Waiting,
            ActionView::CheckStatus,
        ),
        (PhaseView::Starting, EventView::Started(Err(err))) => (
            PhaseView::Fallback(err),
            ActionView::StartWithSystemctl,
        ),
        (PhaseView::Fallback(_), EventView::Systemctl(Err(spawn_err))) => (
            PhaseView::Done(Err(spawn_err)),
            ActionView::Finish(Err(spawn_err)),
        ),
        (PhaseView::Fallback(err), EventView::Systemctl(Ok((ok, code)))) => if ok {
            (PhaseView::Waiting, ActionView::CheckStatus)
        } else {
            (
                PhaseView::Done(Err(start_failure_text(err, code))),
                ActionView::Finish(Err(start_failure_text(err, code))),
            )
        },
        (PhaseView::Waiting, EventView::Running(true)) => (
            PhaseView::Done(Ok(())),
            ActionView::Finish(Ok(())),
        ),
        (PhaseView::Waiting, EventView::Running(false)) => (
            PhaseView::Waiting,
            ActionView::Sleep(500),
        ),
        (PhaseView::Waiting, EventView::Elapsed(ms)) => if ms < 45000 {
            (PhaseView::Waiting, ActionView::CheckStatus)
        } else {
            (PhaseView::Done(Err(not_ready_text())), ActionView::Finish(Err(not_ready_text())))
        },
        _ => (p, pending_action(p)),
    }
}

/// Whether a status check answered "running".
pub open spec fn seen_running(e: EventView) -> bool {
    e == EventView::Running(true)
}

impl GatewayCli {
    /// The CLI driver.
    pub fn new() -> (r: Self) {
        GatewayCli
    }

    /// The CLI binary to run (see `resolve_openclaw_bin`).
    pub fn openclaw_bin(env_bin: Option<&str>, home: Option<&str>, path_var: Option<&str>) -> (r:
        String)
        ensures
            match bin_override(opt_view(env_bin)) {
                Some(b) => r@ == b,
                None => exists|acc: Seq<bool>|
                    acc.len() == cli_candidates(opt_view(home), opt_view(path_var)).len() && r@
                        == bin_or_default(
                        #[trigger] installed_location_for(opt_view(home), opt_view(path_var), acc),
                    ),
            },
    {
        resolve_openclaw_bin(env_bin, home, path_var)
    }

    /// The arguments of a CLI invocation.
    pub fn args(command: GatewayCommand) -> (r: Vec<String>)
        ensures
            views(r@) == command_args(command),
    {
        let mut v: Vec<String> = Vec::new();
        match command {
            GatewayCommand::Status => {
                v.push(String::from_str("gateway"));
                v.push(String::from_str("status"));
                v.push(String::from_str("--json"));
                v.push(String::from_str("--no-probe"));
            },
            GatewayCommand::Install => {
                v.push(String::from_str("gateway"));
                v.push(String::from_str("install"));
            },
            GatewayCommand::Stop => {
                v.push(String::from_str("gateway"));
                v.push(String::from_str("stop"));
            },
            GatewayCommand::Restart => {
                v.push(String::from_str("gateway"));
                v.push(String::from_str("restart"));
            },
            GatewayCommand::Start => {
                v.push(String::from_str("gateway"));
                v.push(String::from_str("start"));
            },
            GatewayCommand::NodeInstall => {
                v.push(String::from_str("node"));
                v.push(String::from_str("install"));
            },
        }
        assert(views(v@) =~= command_args(command));
        v
    }

    /// A finished invocation read as its outcome: standard output on success, standard
    /// error otherwise.
    pub fn command_outcome(success: bool, stdout: String, stderr: String) -> (r: Result<
        String,
        String,
    >)
        ensures
            success ==> (r matches Ok(o) && o@ == stdout@),
            !success ==> (r matches Err(e) && e@ == stderr@),
    {
        if success {
            Ok(stdout)
        } else {
            Err(stderr)
        }
    }

    /// Whether the status invocation reports a running gateway; a failed invocation
    /// counts as not running.
    pub fn running_from_status(status: &Result<String, String>) -> (r: bool)
        ensures
            match status {
                Ok(json) => r == status_running(json@, daemon_status_fields(json@)),
                Err(_) => !r,
            },
    {
        match status {
            Ok(json) => gateway_status_indicates_running(json.as_str()),
            Err(_) => false,
        }
    }

    /// The arguments of the systemctl fallback.
    pub fn systemctl_start_args() -> (r: Vec<String>)
        ensures
            views(r@) == seq!["--user"@, "start"@, "openclaw-gateway.service"@],
    {
        let mut v: Vec<String> = Vec::new();
        v.push(String::from_str("--user"));
        v.push(String::from_str("start"));
        v.push(String::from_str("openclaw-gateway.service"));
        assert(views(v@) =~= seq!["--user"@, "start"@, "openclaw-gateway.service"@]);
        v
    }
}

/// The systemctl failure message (see `start_failure_text`).
fn start_failure_message(err: &str, code: Option<i32>) -> (r: String)
    ensures
        r@ == start_failure_text(err@, code),
{
    let mut s = String::from_str("failed to start gateway: ");
    s.append(err);
    s.append(" (systemctl exit ");
    let c = exit_code_debug_string(code);
    s.append(c.as_str());
    s.append(")");
    s
}

/// The next phase and action of the start-and-wait procedure (see `ensure_step`).
pub fn ensure_gateway_step(phase: EnsurePhase, event: EnsureEvent) -> (r: (EnsurePhase, EnsureAction))
    ensures
        (r.0@, r.1@) == ensure_step(phase@, event@),
{
    match (phase, event) {
        (EnsurePhase::Probe, EnsureEvent::Running(true)) => (
            EnsurePhase::Done(Ok(())),
            EnsureAction::Finish(Ok(())),
        ),
        (EnsurePhase::Probe, EnsureEvent::Running(false)) => (
            EnsurePhase::Starting,
            EnsureAction::StartService,
        ),
        (EnsurePhase::Starting, EnsureEvent::Started(Ok(()))) => (
            EnsurePhase::Waiting,
            EnsureAction::CheckStatus,
        ),
        (EnsurePhase::Starting, EnsureEvent::Started(Err(err))) => (
            EnsurePhase::Fallback(err),
            EnsureAction::StartWithSystemctl,
        ),
        (EnsurePhase::Fallback(_), EnsureEvent::Systemctl(Err(spawn_err))) => {
            let copy = spawn_err.clone();
            (EnsurePhase::Done(Err(spawn_err)), EnsureAction::Finish(Err(copy)))
        },
        (EnsurePhase::Fallback(err), EnsureEvent::Systemctl(Ok((ok, code)))) => {
            if ok {
                (EnsurePhase::Waiting, EnsureAction::CheckStatus)
            } else {
                let m = start_failure_message(err.as_str(), code);
                let copy = start_failure_message(err.as_str(), code);
                (EnsurePhase::Done(Err(m)), EnsureAction::Finish(Err(copy)))
            }
        },
        (EnsurePhase::Waiting, EnsureEvent::Running(true)) => (
            EnsurePhase::Done(Ok(())),
            EnsureAction::Finish(Ok(())),
        ),
        (EnsurePhase::Waiting, EnsureEvent::Running(false)) => (
            EnsurePhase::Waiting,
            EnsureAction::Sleep(GATEWAY_START_POLL_MS),
        ),
        (EnsurePhase::Waiting, EnsureEvent::Elapsed(ms)) => {
            if ms < GATEWAY_START_TIMEOUT_MS {
                (EnsurePhase::Waiting, EnsureAction::CheckStatus)
            } else {
                let m = String::from_str(
                    "gateway did not become ready in time; run openclaw gateway install && openclaw gateway status",
                );
                let copy = String::from_str(
                    "gateway did not become ready in time; run openclaw gateway install && openclaw gateway status",
                );
                (EnsurePhase::Done(Err(m)), EnsureAction::Finish(Err(copy)))
            }
        },
        (EnsurePhase::Probe, _) => (EnsurePhase::Probe, EnsureAction::CheckStatus),
        (EnsurePhase::Starting, _) => (EnsurePhase::Starting, EnsureAction::StartService),
        (EnsurePhase::Fallback(err), _) => (
            EnsurePhase::Fallback(err),
            EnsureAction::StartWithSystemctl,
        ),
        (EnsurePhase::Waiting, _) => (EnsurePhase::Waiting, EnsureAction::CheckStatus),
        (EnsurePhase::Done(res), _) => {
            let copy = match &res {
                Ok(()) => Ok(()),
                Err(e) => Err(e.clone()),
            };
            (EnsurePhase::Done(res), EnsureAction::Finish(copy))
        },
    }
}

/// The procedure reports success only right after a status check that saw the gateway
/// running, or when it had already finished successfully.
pub proof fn law_ready_only_after_running_seen(p: PhaseView, e: EventView)
    ensures
        ensure_step(p, e).1 == ActionView::Finish(Ok(())) ==> seen_running(e) || p == PhaseView::Done(
            Ok(()),
        ),
{
}

/// Once finished, the procedure stays finished with the same outcome, whatever is
/// reported.
pub proof fn law_done_is_final(r: Result<(), Seq<char>>, e: EventView)
    ensures
        ensure_step(PhaseView::Done(r), e) == (PhaseView::Done(r), ActionView::Finish(r)),
{
}

/// While waiting, the procedure gives up exactly when the timeout has passed.
pub proof fn law_wait_times_out(ms: u64)
    ensures
        ensure_step(PhaseView::Waiting, EventView::Elapsed(ms)).1 == ActionView::CheckStatus
            <==> ms < 45000,
        ms >= 45000 ==> ensure_step(PhaseView::Waiting, EventView::Elapsed(ms)).1
            == ActionView::Finish(Err(not_ready_text())),
{
}

} // verus!
