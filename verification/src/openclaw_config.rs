//! The gateway section of `~/.openclaw/openclaw.json`, as the companion reads it.
use vstd::prelude::*;
use crate::paths::{path_join, state_dir_of, state_file};
use crate::text::clone_opt;

verus! {

/// Gateway settings from the OpenClaw config file.
#[derive(Debug, Clone)]
pub struct OpenClawGatewayConfig {
    pub port: Option<u16>,
    pub bind: Option<String>,
    pub control_ui_base_path: Option<String>,
    pub auth_token: Option<String>,
    pub auth_password: Option<String>,
    pub tls_enabled: Option<bool>,
    pub remote_url: Option<String>,
    pub remote_ssh_target: Option<String>,
    pub remote_ssh_identity: Option<String>,
    pub remote_port: Option<u16>,
    pub remote_token: Option<String>,
    pub remote_password: Option<String>,
    pub remote_transport: Option<String>,
}

/// What an `OpenClawGatewayConfig` holds, as text.
pub ghost struct GatewayConfigView {
    pub port: Option<u16>,
    pub bind: Option<Seq<char>>,
    pub control_ui_base_path: Option<Seq<char>>,
    pub auth_token: Option<Seq<char>>,
    pub auth_password: Option<Seq<char>>,
    pub tls_enabled: Option<bool>,
    pub remote_url: Option<Seq<char>>,
    pub remote_ssh_target: Option<Seq<char>>,
    pub remote_ssh_identity: Option<Seq<char>>,
    pub remote_port: Option<u16>,
    pub remote_token: Option<Seq<char>>,
    pub remote_password: Option<Seq<char>>,
    pub remote_transport: Option<Seq<char>>,
}

/// The view of an optional owned string.
pub open spec fn osv(s: Option<String>) -> Option<Seq<char>> {
    match s {
        Some(v) => Some(v@),
        None => None,
    }
}

impl View for OpenClawGatewayConfig {
    type V = GatewayConfigView;

    open spec fn view(&self) -> GatewayConfigView {
        GatewayConfigView {
            port: self.port,
            bind: osv(self.bind),
            control_ui_base_path: osv(self.control_ui_base_path),
            auth_token: osv(self.auth_token),
            auth_password: osv(self.auth_password),
            tls_enabled: self.tls_enabled,
            remote_url: osv(self.remote_url),
            remote_ssh_target: osv(self.remote_ssh_target),
            remote_ssh_identity: osv(self.remote_ssh_identity),
            remote_port: self.remote_port,
            remote_token: osv(self.remote_token),
            remote_password: osv(self.remote_password),
            remote_transport: osv(self.remote_transport),
        }
    }
}

impl Default for OpenClawGatewayConfig {
    /// Nothing configured.
    fn default() -> (r: Self)
        ensures
            r@ == (GatewayConfigView {
                port: None,
                bind: None,
                control_ui_base_path: None,
                auth_token: None,
                auth_password: None,
                tls_enabled: None,
                remote_url: None,
                remote_ssh_target: None,
                remote_ssh_identity: None,
                remote_port: None,
                remote_token: None,
                remote_password: None,
                remote_transport: None,
            }),
    {
        OpenClawGatewayConfig {
            port: None,
            bind: None,
            control_ui_base_path: None,
            auth_token: None,
            auth_password: None,
            tls_enabled: None,
            remote_url: None,
            remote_ssh_target: None,
            remote_ssh_identity: None,
            remote_port: None,
            remote_token: None,
            remote_password: None,
            remote_transport: None,
        }
    }
}

/// `~/.openclaw/openclaw.json` for the given home directory.
pub open spec fn openclaw_config_path_of(home: Option<Seq<char>>) -> Seq<char> {
    path_join(state_dir_of(home), "openclaw.json"@)
}

/// `~/.openclaw/openclaw.json`.
pub fn openclaw_config_path() -> (r: String)
    ensures
        exists|h: Option<Seq<char>>| r@ == openclaw_config_path_of(h),
{
    let r = state_file("openclaw.json");
    proof {
        let h = choose|h: Option<Seq<char>>| r@ == path_join(state_dir_of(h), "openclaw.json"@);
        assert(r@ == openclaw_config_path_of(h));
    }
    r
}

/// The gateway auth token and password of a loaded config.
pub fn load_gateway_auth(cfg: &OpenClawGatewayConfig) -> (r: (Option<String>, Option<String>))
    ensures
        osv(r.0) == cfg@.auth_token,
        osv(r.1) == cfg@.auth_password,
{
    (clone_opt(&cfg.auth_token), clone_opt(&cfg.auth_password))
}

} // verus!
