//! Gateway autostart policy and daemon status interpretation.
use vstd::prelude::*;
use crate::gateway_config::{ConnectionMode, GatewayConnectionSettings};
use crate::json::{
    json_as_bool, json_as_str, json_bool_of, json_member, json_member_of, json_parse_error,
    json_pointer, json_pointer_of, json_str_of, json_value_of, parse_json,
};
use crate::text::{contains_seq, contains_str, str_eq};

verus! {

/// The fields of `openclaw gateway status --json` that say whether the gateway runs:
/// `rpc.ok` (when it is a boolean) and `service.runtime.status` (when it is a string).
#[derive(Debug, Clone)]
pub struct DaemonStatus {
    pub rpc_ok: Option<bool>,
    pub runtime_status: Option<String>,
}

/// Local mode and the user opted in.
pub open spec fn autostart_wanted(mode: ConnectionMode, gateway_autostart: bool) -> bool {
    mode == ConnectionMode::Local && gateway_autostart
}

/// Whether a daemon status reports the gateway running: from the parsed fields when the
/// JSON parsed (`rpc.ok` true, or runtime status `running`), else from the raw text
/// containing `"status":"running"` or `"status": "running"`.
pub open spec fn status_running(json: Seq<char>, parsed: Option<(Option<bool>, Option<Seq<char>>)>) -> bool {
    match parsed {
        None => contains_seq(json, "\"status\":\"running\""@) || contains_seq(
            json,
            "\"status\": \"running\""@,
        ),
        Some((rpc_ok, status)) => rpc_ok == Some(true) || status == Some("running"@),
    }
}

/// The view of an optional daemon status.
pub open spec fn daemon_view(p: Option<DaemonStatus>) -> Option<(Option<bool>, Option<Seq<char>>)> {
    match p {
        Some(d) => Some(
            (
                d.rpc_ok,
                match d.runtime_status {
                    Some(s) => Some(s@),
                    None => None,
                },
            ),
        ),
        None => None,
    }
}

/// Start the gateway on launch only in local mode with autostart on.
pub fn should_autostart_gateway(settings: &GatewayConnectionSettings) -> (r: bool)
    ensures
        r == autostart_wanted(settings.mode, settings.gateway_autostart),
{
    settings.mode == ConnectionMode::Local && settings.gateway_autostart
}

/// The daemon status fields `serde_json` reads from `json`: `None` when the text is not
/// JSON, else `rpc` → `ok` as a boolean and `/service/runtime/status` as a string, each
/// where present with that type.
pub open spec fn daemon_status_fields(json: Seq<char>) -> Option<(Option<bool>, Option<Seq<char>>)> {
    match json_parse_error(json) {
        Some(_) => None,
        None => {
            let v = json_value_of(json);
            let rpc_ok = match json_member_of(v, "rpc"@) {
                Some(rpc) => match json_member_of(rpc, "ok"@) {
                    Some(ok) => json_bool_of(ok),
                    None => None,
                },
                None => None,
            };
            let status = match json_pointer_of(v, "/service/runtime/status"@) {
                Some(st) => json_str_of(st),
                None => None,
            };
            Some((rpc_ok, status))
        },
    }
}

/// Reads `rpc.ok` and `service.runtime.status` from `openclaw gateway status --json`
/// output (see `daemon_status_fields`).
pub fn read_daemon_status(json: &str) -> (r: Option<DaemonStatus>)
    ensures
        daemon_view(r) == daemon_status_fields(json@),
        (r is None) == (json_parse_error(json@) is Some),
{
    let value = match parse_json(json) {
        Ok(v) => v,
        Err(_) => return None,
    };
    let rpc_ok = match json_member(&value, "rpc") {
        Some(rpc) => match json_member(&rpc, "ok") {
            Some(ok) => json_as_bool(&ok),
            None => None,
        },
        None => None,
    };
    let runtime_status = match json_pointer(&value, "/service/runtime/status") {
        Some(st) => json_as_str(&st),
        None => None,
    };
    Some(DaemonStatus { rpc_ok, runtime_status })
}

/// Whether daemon status output reports a running gateway, given the fields read from it
/// (`parsed`, absent when the text is not JSON).
pub fn status_indicates_running(json: &str, parsed: Option<DaemonStatus>) -> (r: bool)
    ensures
        r == status_running(json@, daemon_view(parsed)),
{
    match parsed {
        None => contains_str(json, "\"status\":\"running\"") || contains_str(
            json,
            "\"status\": \"running\"",
        ),
        Some(d) => {
            let rpc = match d.rpc_ok {
                Some(b) => b,
                None => false,
            };
            if rpc {
                return true;
            }
            match &d.runtime_status {
                Some(s) => str_eq(s.as_str(), "running"),
                None => false,
            }
        },
    }
}

/// Whether `openclaw gateway status --json` output reports a running gateway: `rpc.ok`
/// true or runtime status `running` when it is JSON, else a `"status":"running"` text
/// match.
pub fn gateway_status_indicates_running(json: &str) -> (r: bool)
    ensures
        r == status_running(json@, daemon_status_fields(json@)),
{
    let parsed = read_daemon_status(json);
    status_indicates_running(json, parsed)
}

} // verus!
