pub mod text;
pub mod tray_status;
pub mod canvas_snapshot;
pub mod paths;
pub mod cli_install;
pub mod encoding;
pub mod crypto;
pub mod device_auth;
pub mod device_identity;
pub mod url_model;
pub mod deep_links;
pub mod openclaw_config;
pub mod gateway_config;
pub mod discovery;
pub mod gateway_autostart;
pub mod node_caps;
pub mod voice;
pub mod bridge;
pub mod exec_approvals;
pub mod json;
pub mod dashboard;
pub mod protocol;
pub mod gateway_cli;
pub mod node_host;
pub mod capture;
pub mod canvas;
pub mod desktop_integration;
pub mod pairing;
pub mod runtime;
pub mod operator_rpc;
pub mod gateway_host;
