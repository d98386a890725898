//! Automation bridge status (the socket host is not started yet).
use vstd::prelude::*;
use crate::paths::{path_join, state_dir_of, state_file};
use crate::text::trim;

verus! {

/// Environment variable that overrides the bridge socket path.
pub const PEEKABOO_SOCKET_ENV: &'static str = "OPENCLAW_PEEKABOO_SOCKET";

/// Whether the automation bridge runs.
#[derive(Debug, Clone, Copy, PartialEq, Eq, Structural)]
pub enum BridgeState {
    /// Socket server not started; node agents must not assume the bridge is available.
    Disabled,
    /// Reserved for the future bridge host.
    Planned,
}

/// The bridge status shown in the debug tab.
#[derive(Debug, Clone)]
pub struct BridgeStatus {
    pub state: BridgeState,
    pub socket_path: String,
    pub message: String,
}

/// `~/.openclaw/bridge/peekaboo.sock` for the given home directory.
pub open spec fn default_socket_path_of(home: Option<Seq<char>>) -> Seq<char> {
    path_join(state_dir_of(home), "bridge/peekaboo.sock"@)
}

/// The bridge status message.
pub open spec fn bridge_message() -> Seq<char> {
    "Linux automation bridge is not enabled yet. Planned: AT-SPI + xdg-desktop-portal."@
}

/// The default bridge socket, `~/.openclaw/bridge/peekaboo.sock`.
pub fn default_socket_path() -> (r: String)
    ensures
        exists|h: Option<Seq<char>>| r@ == default_socket_path_of(h),
{
    let r = state_file("bridge/peekaboo.sock");
    proof {
        let h = choose|h: Option<Seq<char>>| r@ == path_join(state_dir_of(h), "bridge/peekaboo.sock"@);
        assert(r@ == default_socket_path_of(h));
    }
    r
}

/// The bridge socket: the override variable's value when it is set and not blank, else
/// the default socket.
pub fn resolve_socket_path(env_value: Option<&str>) -> (r: String)
    ensures
        match env_value {
            Some(v) => if trim(v@).len() > 0 {
                r@ == v@
            } else {
                exists|h: Option<Seq<char>>| r@ == default_socket_path_of(h)
            },
            None => exists|h: Option<Seq<char>>| r@ == default_socket_path_of(h),
        },
{
    if let Some(v) = env_value {
        let t = crate::text::trim_string(v);
        if !t.as_str().is_empty() {
            return String::from_str(v);
        }
    }
    default_socket_path()
}

/// The bridge status: planned, with the resolved socket path.
pub fn bridge_status(env_value: Option<&str>) -> (r: BridgeStatus)
    ensures
        r.state == BridgeState::Planned,
        r.message@ == bridge_message(),
        match env_value {
            Some(v) => if trim(v@).len() > 0 {
                r.socket_path@ == v@
            } else {
                exists|h: Option<Seq<char>>| r.socket_path@ == default_socket_path_of(h)
            },
            None => exists|h: Option<Seq<char>>| r.socket_path@ == default_socket_path_of(h),
        },
{
    BridgeStatus {
        state: BridgeState::Planned,
        socket_path: resolve_socket_path(env_value),
        message: String::from_str(
            "Linux automation bridge is not enabled yet. Planned: AT-SPI + xdg-desktop-portal.",
        ),
    }
}

} // verus!
