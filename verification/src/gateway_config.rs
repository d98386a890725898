//! Companion connection settings (`~/.openclaw/linux-app-settings.json`).
use vstd::prelude::*;
use crate::encoding::decimal_string;
use crate::encoding::decimal;
use crate::openclaw_config::{osv, GatewayConfigView, OpenClawGatewayConfig};
use crate::paths::{path_join, state_dir_of, state_file};
use crate::text::{chars_of, clone_opt, non_blank, non_blank_of, opt_view, str_eq, string_from_chars, trim, trim_string};
use crate::url_model::{parse_url, url_parse_result, UrlParts, UrlView};

verus! {

/// Whether the companion talks to a gateway on this machine or a remote one.
#[derive(Debug, Clone, Copy, PartialEq, Eq, Structural)]
pub enum ConnectionMode {
    Local,
    Remote,
}

impl Default for ConnectionMode {
    /// Local mode.
    fn default() -> (r: Self)
        ensures
            r == ConnectionMode::Local,
    {
        ConnectionMode::Local
    }
}

/// Connection and feature settings of the Linux companion.
#[derive(Debug, Clone)]
pub struct GatewayConnectionSettings {
    pub mode: ConnectionMode,
    pub port: u16,
    pub host: Option<String>,
    pub token: Option<String>,
    pub password: Option<String>,
    pub use_tls: bool,
    pub ssh_target: Option<String>,
    pub ssh_identity: Option<String>,
    /// When true, connect the WebSocket to host/port directly (`gateway.remote.url`)
    /// without an SSH tunnel.
    pub remote_direct: bool,
    pub voice_wake_enabled: bool,
    pub talk_enabled: bool,
    pub voice_wake_phrases: Vec<String>,
    pub camera_enabled: bool,
    pub screen_enabled: bool,
    pub location_enabled: bool,
    /// When true, local mode starts the gateway user service on launch if it is not running.
    pub gateway_autostart: bool,
    /// Last WebChat session key, restored when WebChat opens without an explicit session.
    pub last_webchat_session: Option<String>,
}

/// What a `GatewayConnectionSettings` holds, as text.
pub ghost struct SettingsView {
    pub mode: ConnectionMode,
    pub port: u16,
    pub host: Option<Seq<char>>,
    pub token: Option<Seq<char>>,
    pub password: Option<Seq<char>>,
    pub use_tls: bool,
    pub ssh_target: Option<Seq<char>>,
    pub ssh_identity: Option<Seq<char>>,
    pub remote_direct: bool,
    pub voice_wake_enabled: bool,
    pub talk_enabled: bool,
    pub voice_wake_phrases: Seq<Seq<char>>,
    pub camera_enabled: bool,
    pub screen_enabled: bool,
    pub location_enabled: bool,
    pub gateway_autostart: bool,
    pub last_webchat_session: Option<Seq<char>>,
}

impl View for GatewayConnectionSettings {
    type V = SettingsView;

    open spec fn view(&self) -> SettingsView {
        SettingsView {
            mode: self.mode,
            port: self.port,
            host: osv(self.host),
            token: osv(self.token),
            password: osv(self.password),
            use_tls: self.use_tls,
            ssh_target: osv(self.ssh_target),
            ssh_identity: osv(self.ssh_identity),
            remote_direct: self.remote_direct,
            voice_wake_enabled: self.voice_wake_enabled,
            talk_enabled: self.talk_enabled,
            voice_wake_phrases: Seq::new(
                self.voice_wake_phrases@.len(),
                |i: int| self.voice_wake_phrases@[i]@,
            ),
            camera_enabled: self.camera_enabled,
            screen_enabled: self.screen_enabled,
            location_enabled: self.location_enabled,
            gateway_autostart: self.gateway_autostart,
            last_webchat_session: osv(self.last_webchat_session),
        }
    }
}

/// The settings used when nothing has been saved: local mode on the default port, node
/// capture enabled, gateway autostart on, everything else off or unset.
pub open spec fn default_settings() -> SettingsView {
    SettingsView {
        mode: ConnectionMode::Local,
        port: 18789,
        host: None,
        token: None,
        password: None,
        use_tls: false,
        ssh_target: None,
        ssh_identity: None,
        remote_direct: false,
        voice_wake_enabled: false,
        talk_enabled: false,
        voice_wake_phrases: Seq::empty(),
        camera_enabled: true,
        screen_enabled: true,
        location_enabled: true,
        gateway_autostart: true,
        last_webchat_session: None,
    }
}

/// `a`, else `b`.
pub open spec fn or_opt(a: Option<Seq<char>>, b: Option<Seq<char>>) -> Option<Seq<char>> {
    match a {
        Some(v) => Some(v),
        None => b,
    }
}

/// The value of `a`, else `d`.
pub open spec fn or_text(a: Option<Seq<char>>, d: Seq<char>) -> Seq<char> {
    match a {
        Some(v) => v,
        None => d,
    }
}

/// The text of an optional value that is not blank, untrimmed.
pub open spec fn keep_non_blank(a: Option<Seq<char>>) -> Option<Seq<char>> {
    match a {
        Some(v) => if trim(v).len() > 0 {
            Some(v)
        } else {
            None
        },
        None => None,
    }
}

/// A loopback host name as `gateway.remote.url` may give it; an IPv6 host comes in
/// brackets (`[::1]`) from a parsed URL.
pub open spec fn is_loopback_name(h: Seq<char>) -> bool {
    h == "127.0.0.1"@ || h == "localhost"@ || h == "::1"@ || h == "[::1]"@
}

/// Applies `gateway.remote.url` and `gateway.remote.transport` to remote-mode settings:
/// a direct transport or a non-loopback URL connects to that host and port directly;
/// a loopback URL over SSH keeps the tunnel on `127.0.0.1`; an unparsable URL changes
/// nothing; without a URL only the transport decides `remote_direct`.
pub open spec fn with_remote_url(s: SettingsView, g: GatewayConfigView) -> SettingsView {
    let transport = or_text(g.remote_transport, "ssh"@);
    match keep_non_blank(g.remote_url) {
        None => SettingsView { remote_direct: transport == "direct"@, ..s },
        Some(raw) => match url_parse_result(trim(raw)) {
            Err(_) => s,
            Ok(u) => {
                let host = or_text(u.host, "127.0.0.1"@);
                if transport == "direct"@ || !is_loopback_name(host) {
                    SettingsView {
                        host: Some(host),
                        port: match u.port {
                            Some(p) => p,
                            None => s.port,
                        },
                        use_tls: u.scheme == "wss"@,
                        remote_direct: true,
                        ..s
                    }
                } else {
                    SettingsView { remote_direct: false, host: Some("127.0.0.1"@), ..s }
                }
            },
        },
    }
}

/// Saved settings completed from the OpenClaw config: a default port gives way to the
/// configured one, unset SSH target and identity come from `gateway.remote`; in remote
/// mode unset credentials come from `gateway.remote` (else `gateway.auth`) and the remote
/// URL applies; in local mode, when neither credential is set, both come from `gateway.auth`.
pub open spec fn merged_with_gateway(s: SettingsView, g: GatewayConfigView) -> SettingsView {
    let s2 = with_gateway_port_and_ssh(s, g);
    if s2.mode == ConnectionMode::Remote {
        with_remote_url(with_remote_credentials(s2, g), g)
    } else if s2.token is None && s2.password is None {
        SettingsView { token: g.auth_token, password: g.auth_password, ..s2 }
    } else {
        s2
    }
}

/// The configured port in place of the default one, and the SSH target and identity of
/// `gateway.remote` where none is set.
pub open spec fn with_gateway_port_and_ssh(s: SettingsView, g: GatewayConfigView) -> SettingsView {
    let s1 = SettingsView {
        port: if s.port == 18789 && g.port is Some {
            g.port->0
        } else {
            s.port
        },
        ..s
    };
    let s2 = SettingsView {
        ssh_target: if s1.ssh_target is None {
            g.remote_ssh_target
        } else {
            s1.ssh_target
        },
        ssh_identity: if s1.ssh_identity is None {
            g.remote_ssh_identity
        } else {
            s1.ssh_identity
        },
        ..s1
    };
    s2
}

/// Remote credentials from `gateway.remote`, else `gateway.auth`, where none is set.
pub open spec fn with_remote_credentials(s: SettingsView, g: GatewayConfigView) -> SettingsView {
    SettingsView {
        token: if s.token is None {
            or_opt(g.remote_token, g.auth_token)
        } else {
            s.token
        },
        password: if s.password is None {
            or_opt(g.remote_password, g.auth_password)
        } else {
            s.password
        },
        ..s
    }
}

/// The gateway WebSocket URL text for the settings: `ws` or `wss`, host (default
/// `127.0.0.1`) and port.
pub open spec fn ws_url_text(s: SettingsView) -> Seq<char> {
    (if s.use_tls {
        "wss"@
    } else {
        "ws"@
    }) + "://"@ + or_text(s.host, "127.0.0.1"@) + ":"@ + decimal(s.port as nat)
}

/// The WebChat session to open: a non-blank explicit one (trimmed), else the stored one
/// when it is not blank (trimmed).
pub open spec fn resolved_session(explicit: Option<Seq<char>>, stored: Option<Seq<char>>) -> Option<
    Seq<char>,
> {
    match non_blank(explicit) {
        Some(s) => Some(s),
        None => non_blank(stored),
    }
}

/// The UTF-8 width of a character (`char::len_utf8`).
pub open spec fn utf8_width(c: char) -> nat {
    if (c as int) < 0x80 {
        1
    } else if (c as int) < 0x800 {
        2
    } else if (c as int) < 0x10000 {
        3
    } else {
        4
    }
}

/// The UTF-8 length of a text (`str::len`).
pub open spec fn utf8_len(s: Seq<char>) -> nat
    decreases s.len(),
{
    if s.len() == 0 {
        0
    } else {
        utf8_len(s.drop_last()) + utf8_width(s.last())
    }
}

/// The longest prefix of `s` whose UTF-8 length is at most `n`.
pub open spec fn prefix_within_bytes(s: Seq<char>, n: int) -> Seq<char>
    decreases s.len(),
{
    if s.len() == 0 || utf8_width(s[0]) > n {
        Seq::empty()
    } else {
        seq![s[0]] + prefix_within_bytes(s.drop_first(), n - utf8_width(s[0]))
    }
}

/// A session key of more than 48 bytes is shortened at byte 45, which must fall on a
/// character boundary.
pub open spec fn title_key_cut_ok(key: Seq<char>) -> bool {
    utf8_len(key) > 48 ==> utf8_len(prefix_within_bytes(key, 45)) == 45
}

/// The WebChat window title for an optional session key.
pub open spec fn webchat_title(session: Option<Seq<char>>) -> Seq<char> {
    match non_blank(session) {
        None => "OpenClaw WebChat"@,
        Some(key) => "OpenClaw WebChat — "@ + (if utf8_len(key) > 48 {
            prefix_within_bytes(key, 45) + "…"@
        } else {
            key
        }),
    }
}

/// `~/.openclaw/linux-app-settings.json` for the given home directory.
pub open spec fn settings_path_of(home: Option<Seq<char>>) -> Seq<char> {
    path_join(state_dir_of(home), "linux-app-settings.json"@)
}

/// The default gateway port.
pub fn default_port() -> (r: u16)
    ensures
        r == 18789,
{
    18789
}

/// Gateway autostart is on unless turned off.
pub fn default_gateway_autostart() -> (r: bool)
    ensures
        r,
{
    true
}

/// Node camera, screen and location capture are on unless turned off.
pub fn default_node_capture_enabled() -> (r: bool)
    ensures
        r,
{
    true
}

impl Default for GatewayConnectionSettings {
    /// See `default_settings`.
    fn default() -> (r: Self)
        ensures
            r@ == default_settings(),
    {
        let r = GatewayConnectionSettings {
            mode: ConnectionMode::Local,
            port: default_port(),
            host: None,
            token: None,
            password: None,
            use_tls: false,
            ssh_target: None,
            ssh_identity: None,
            remote_direct: false,
            voice_wake_enabled: false,
            talk_enabled: false,
            voice_wake_phrases: Vec::new(),
            camera_enabled: true,
            screen_enabled: true,
            location_enabled: true,
            gateway_autostart: default_gateway_autostart(),
            last_webchat_session: None,
        };
        assert(r@.voice_wake_phrases =~= Seq::<Seq<char>>::empty());
        r
    }
}

fn is_loopback_host(h: &str) -> (r: bool)
    ensures
        r == is_loopback_name(h@),
{
    str_eq(h, "127.0.0.1") || str_eq(h, "localhost") || str_eq(h, "::1") || str_eq(h, "[::1]")
}

impl GatewayConnectionSettings {
    /// `~/.openclaw/linux-app-settings.json`.
    pub fn settings_path() -> (r: String)
        ensures
            exists|h: Option<Seq<char>>| r@ == settings_path_of(h),
    {
        let r = state_file("linux-app-settings.json");
        proof {
            let h = choose|h: Option<Seq<char>>|
                r@ == path_join(state_dir_of(h), "linux-app-settings.json"@);
            assert(r@ == settings_path_of(h));
        }
        r
    }

    /// The remote gateway port: `gateway.remote.remotePort`, else `gateway.port`, else the
    /// default port.
    pub fn remote_gateway_port(gateway: &OpenClawGatewayConfig) -> (r: u16)
        ensures
            r == (match gateway.remote_port {
                Some(p) => p,
                None => match gateway.port {
                    Some(p) => p,
                    None => 18789,
                },
            }),
    {
        match gateway.remote_port {
            Some(p) => p,
            None => match gateway.port {
                Some(p) => p,
                None => default_port(),
            },
        }
    }

    /// Remote mode reaches the gateway through an SSH tunnel: not direct, and an SSH
    /// target that is not blank.
    pub fn uses_ssh_tunnel(&self) -> (r: bool)
        ensures
            r == (self.mode == ConnectionMode::Remote && !self.remote_direct && (match self@.ssh_target {
                Some(t) => trim(t).len() > 0,
                None => false,
            })),
    {
        if self.mode != ConnectionMode::Remote || self.remote_direct {
            return false;
        }
        match &self.ssh_target {
            Some(t) => {
                let tt = trim_string(t.as_str());
                !tt.as_str().is_empty()
            },
            None => false,
        }
    }

    /// `(camera, location, screen, talk)` flags for node capability advertisement.
    pub fn node_advertisement_flags(&self) -> (r: (bool, bool, bool, bool))
        ensures
            r == (self.camera_enabled, self.location_enabled, self.screen_enabled, self.talk_enabled),
    {
        (self.camera_enabled, self.location_enabled, self.screen_enabled, self.talk_enabled)
    }

    /// The gateway WebSocket URL text (see `ws_url_text`).
    pub fn gateway_ws_url_text(&self) -> (r: String)
        ensures
            r@ == ws_url_text(self@),
    {
        let mut out = if self.use_tls {
            String::from_str("wss")
        } else {
            String::from_str("ws")
        };
        out.append("://");
        match &self.host {
            Some(h) => out.append(h.as_str()),
            None => out.append("127.0.0.1"),
        }
        out.append(":");
        let p = decimal_string(self.port as u64);
        out.append(p.as_str());
        out
    }

    /// The gateway WebSocket URL. The settings' URL text must parse.
    pub fn gateway_ws_url(&self) -> (r: UrlParts)
        requires
            url_parse_result(ws_url_text(self@)) is Ok,
        ensures
            url_parse_result(ws_url_text(self@)) == Ok::<UrlView, Seq<char>>(r@),
    {
        let text = self.gateway_ws_url_text();
        parse_url(text.as_str()).unwrap()
    }

    /// The gateway WebSocket URL, when the settings' URL text parses.
    pub fn try_gateway_ws_url(&self) -> (r: Option<UrlParts>)
        ensures
            match url_parse_result(ws_url_text(self@)) {
                Ok(u) => r matches Some(x) && x@ == u,
                Err(_) => r is None,
            },
    {
        let text = self.gateway_ws_url_text();
        match parse_url(text.as_str()) {
            Ok(_) => Some(self.gateway_ws_url()),
            Err(_) => None,
        }
    }

    /// Applies `gateway.remote.url` and the remote transport (see `with_remote_url`).
    pub fn apply_remote_url(&mut self, gateway: &OpenClawGatewayConfig)
        ensures
            final(self)@ == with_remote_url(old(self)@, gateway@),
    {
        let direct = match &gateway.remote_transport {
            Some(t) => str_eq(t.as_str(), "direct"),
            None => {
                proof {
                    reveal_strlit("ssh");
                    reveal_strlit("direct");
                    assert("ssh"@.len() != "direct"@.len());
                }
                false
            },
        };
        assert(direct == (or_text(gateway@.remote_transport, "ssh"@) == "direct"@));
        let raw = match &gateway.remote_url {
            Some(u) => {
                let t = trim_string(u.as_str());
                if t.as_str().is_empty() {
                    None
                } else {
                    Some(t)
                }
            },
            None => None,
        };
        let raw = match raw {
            Some(r) => r,
            None => {
                self.remote_direct = direct;
                return;
            },
        };
        let url = match parse_url(raw.as_str()) {
            Ok(u) => u,
            Err(_) => return,
        };
        let host = match &url.host {
            Some(h) => h.clone(),
            None => String::from_str("127.0.0.1"),
        };
        if direct || !is_loopback_host(host.as_str()) {
            self.host = Some(host);
            self.port = match url.port {
                Some(p) => p,
                None => self.port,
            };
            self.use_tls = str_eq(url.scheme.as_str(), "wss");
            self.remote_direct = true;
            return;
        }
        self.remote_direct = false;
        self.host = Some(String::from_str("127.0.0.1"));
    }

    /// Completes saved settings from the OpenClaw config (see `merged_with_gateway`).
    pub fn apply_gateway_config(&mut self, gateway: &OpenClawGatewayConfig)
        ensures
            final(self)@ == merged_with_gateway(old(self)@, gateway@),
    {
        self.apply_gateway_port_and_ssh(gateway);
        if self.mode == ConnectionMode::Remote {
            self.apply_remote_credentials(gateway);
            self.apply_remote_url(gateway);
        } else if self.token.is_none() && self.password.is_none() {
            self.token = clone_opt(&gateway.auth_token);
            self.password = clone_opt(&gateway.auth_password);
        }
    }

    fn apply_gateway_port_and_ssh(&mut self, gateway: &OpenClawGatewayConfig)
        ensures
            final(self)@ == with_gateway_port_and_ssh(old(self)@, gateway@),
    {
        if self.port == default_port() {
            if let Some(port) = gateway.port {
                self.port = port;
            }
        }
        if self.ssh_target.is_none() {
            self.ssh_target = clone_opt(&gateway.remote_ssh_target);
        }
        if self.ssh_identity.is_none() {
            self.ssh_identity = clone_opt(&gateway.remote_ssh_identity);
        }
    }

    fn apply_remote_credentials(&mut self, gateway: &OpenClawGatewayConfig)
        ensures
            final(self)@ == with_remote_credentials(old(self)@, gateway@),
    {
            if self.token.is_none() {
                self.token = match &gateway.remote_token {
                    Some(t) => Some(t.clone()),
                    None => clone_opt(&gateway.auth_token),
                };
            }
            if self.password.is_none() {
                self.password = match &gateway.remote_password {
                    Some(p) => Some(p.clone()),
                    None => clone_opt(&gateway.auth_password),
                };
            }
    }

    /// Explicit session wins; otherwise the stored `last_webchat_session` (see
    /// `resolved_session`).
    pub fn resolved_webchat_session(explicit: Option<&str>, stored: Option<&str>) -> (r: Option<
        String,
    >)
        ensures
            osv(r) == resolved_session(opt_view(explicit), opt_view(stored)),
    {
        match non_blank_of(explicit) {
            Some(s) => Some(s),
            None => non_blank_of(stored),
        }
    }

    /// Records a non-blank session key (trimmed) as the last WebChat session; an absent or
    /// blank key, or the key already stored, changes nothing. Returns whether the settings
    /// changed and need saving.
    pub fn remember_webchat_session(&mut self, session: Option<&str>) -> (changed: bool)
        ensures
            match non_blank(opt_view(session)) {
                None => !changed && final(self)@ == old(self)@,
                Some(key) => if old(self)@.last_webchat_session == Some(key) {
                    !changed && final(self)@ == old(self)@
                } else {
                    changed && final(self)@ == (SettingsView {
                        last_webchat_session: Some(key),
                        ..old(self)@
                    })
                },
            },
    {
        let trimmed = match non_blank_of(session) {
            Some(t) => t,
            None => return false,
        };
        let same = match &self.last_webchat_session {
            Some(cur) => str_eq(cur.as_str(), trimmed.as_str()),
            None => false,
        };
        if same {
            return false;
        }
        self.last_webchat_session = Some(trimmed);
        true
    }

    /// The WebChat window title (see `webchat_title`).
    pub fn webchat_window_title(session: Option<&str>) -> (r: String)
        requires
            match non_blank(opt_view(session)) {
                Some(key) => title_key_cut_ok(key),
                None => true,
            },
        ensures
            r@ == webchat_title(opt_view(session)),
    {
        let key = match non_blank_of(session) {
            Some(k) => k,
            None => return String::from_str("OpenClaw WebChat"),
        };
        let v = chars_of(key.as_str());
        let long = utf8_len_exceeds(&v, 48);
        let mut out = String::from_str("OpenClaw WebChat — ");
        if long {
            let cut = byte_prefix(&v, 45);
            let s = string_from_chars(&cut);
            out.append(s.as_str());
            out.append("…");
        } else {
            out.append(key.as_str());
        }
        out
    }
}

fn utf8_width_exec(c: char) -> (r: usize)
    ensures
        r == utf8_width(c),
{
    if (c as u32) < 0x80 {
        1
    } else if (c as u32) < 0x800 {
        2
    } else if (c as u32) < 0x10000 {
        3
    } else {
        4
    }
}

proof fn lemma_utf8_len_prefix(s: Seq<char>, i: int)
    requires
        0 <= i <= s.len(),
    ensures
        utf8_len(s.take(i)) <= utf8_len(s),
    decreases s.len() - i,
{
    if i < s.len() {
        lemma_utf8_len_prefix(s, i + 1);
        assert(s.take(i + 1).drop_last() =~= s.take(i));
    } else {
        assert(s.take(i) =~= s);
    }
}

/// Whether the UTF-8 length of `v` exceeds `limit`.
fn utf8_len_exceeds(v: &Vec<char>, limit: usize) -> (r: bool)
    requires
        limit <= 1000,
    ensures
        r == (utf8_len(v@) > limit),
{
    let mut total: usize = 0;
    let mut i: usize = 0;
    while i < v.len()
        invariant
            i <= v.len(),
            limit <= 1000,
            total == utf8_len(v@.take(i as int)),
            total <= limit,
        decreases v.len() - i,
    {
        proof {
            assert(v@.take(i + 1).drop_last() =~= v@.take(i as int));
        }
        total = total + utf8_width_exec(v[i]);
        i = i + 1;
        if total > limit {
            proof {
                lemma_utf8_len_prefix(v@, i as int);
            }
            return true;
        }
    }
    assert(v@.take(v.len() as int) =~= v@);
    false
}

proof fn lemma_prefix_within_bytes_split(s: Seq<char>, i: int, n: int)
    requires
        0 <= i < s.len(),
        utf8_len(s.take(i)) + utf8_width(s[i]) <= n,
        prefix_within_bytes(s, n) == s.take(i) + prefix_within_bytes(s.skip(i), n - utf8_len(
            s.take(i),
        )),
    ensures
        prefix_within_bytes(s, n) == s.take(i + 1) + prefix_within_bytes(
            s.skip(i + 1),
            n - utf8_len(s.take(i + 1)),
        ),
{
    let rest = s.skip(i);
    assert(rest[0] == s[i]);
    assert(rest.drop_first() =~= s.skip(i + 1));
    assert(s.take(i + 1).drop_last() =~= s.take(i));
    assert(s.take(i + 1).last() == s[i]);
    assert(s.take(i) + seq![s[i]] =~= s.take(i + 1));
}

fn byte_prefix(v: &Vec<char>, n: usize) -> (r: Vec<char>)
    requires
        n <= 45,
    ensures
        r@ == prefix_within_bytes(v@, n as int),
{
    let mut out: Vec<char> = Vec::new();
    let mut used: usize = 0;
    let mut i: usize = 0;
    proof {
        assert(v@.take(0) =~= Seq::<char>::empty());
        assert(v@.skip(0) =~= v@);
    }
    while i < v.len()
        invariant
            i <= v.len(),
            n <= 45,
            used == utf8_len(v@.take(i as int)),
            used <= n,
            out@ == v@.take(i as int),
            prefix_within_bytes(v@, n as int) == v@.take(i as int) + prefix_within_bytes(
                v@.skip(i as int),
                n - used,
            ),
        decreases v.len() - i,
    {
        let w = utf8_width_exec(v[i]);
        if w > n - used {
            proof {
                assert(v@.skip(i as int)[0] == v@[i as int]);
            }
            assert(v@.take(i as int) + Seq::<char>::empty() =~= v@.take(i as int));
            return out;
        }
        proof {
            lemma_prefix_within_bytes_split(v@, i as int, n as int);
            assert(v@.take(i + 1).drop_last() =~= v@.take(i as int));
        }
        out.push(v[i]);
        used = used + w;
        i = i + 1;
        proof {
            assert(out@ =~= v@.take(i as int));
        }
    }
    proof {
        assert(v@.skip(i as int) =~= Seq::<char>::empty());
        assert(v@.take(i as int) =~= v@);
        assert(v@ + Seq::<char>::empty() =~= v@);
    }
    out
}

/// Remembering a session and then resolving without an explicit one gives back the
/// remembered key (trimmed), whatever was stored before.
pub proof fn law_remember_then_resolve(s: SettingsView, key: Seq<char>)
    requires
        trim(key).len() > 0,
    ensures
        resolved_session(
            None,
            (SettingsView { last_webchat_session: non_blank(Some(key)), ..s }).last_webchat_session,
        ) == Some(trim(key)),
{
    crate::text::lemma_trim_idempotent(key);
}

/// Completing saved settings from the OpenClaw config fills unset credentials: in remote
/// mode an unset token or password becomes `gateway.remote`'s, else `gateway.auth`'s, and
/// a set one is kept; in local mode, when neither is set, both come from `gateway.auth`.
pub proof fn law_merged_credentials(s: SettingsView, g: GatewayConfigView)
    ensures
        s.mode == ConnectionMode::Remote ==> {
            &&& merged_with_gateway(s, g).password == match s.password {
                Some(p) => Some(p),
                None => match g.remote_password {
                    Some(r) => Some(r),
                    None => g.auth_password,
                },
            }
            &&& merged_with_gateway(s, g).token == match s.token {
                Some(t) => Some(t),
                None => match g.remote_token {
                    Some(r) => Some(r),
                    None => g.auth_token,
                },
            }
        },
        s.mode == ConnectionMode::Local && s.token is None && s.password is None ==> {
            &&& merged_with_gateway(s, g).token == g.auth_token
            &&& merged_with_gateway(s, g).password == g.auth_password
        },
        s.mode == ConnectionMode::Local && (s.token is Some || s.password is Some) ==> {
            &&& merged_with_gateway(s, g).token == s.token
            &&& merged_with_gateway(s, g).password == s.password
        },
{
}

} // verus!
