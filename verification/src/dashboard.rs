//! The Control UI address and the auth material handed to its window.
use vstd::prelude::*;
use crate::device_auth::views;
use crate::encoding::{decimal, decimal_string};
use crate::paths::{first_existing, is_first_accepted, join_path, opt_string, path_join};
use crate::gateway_config::{
    keep_non_blank, or_opt, or_text, resolved_session, title_key_cut_ok, webchat_title,
    ConnectionMode, GatewayConnectionSettings, SettingsView,
};
use crate::json::{json_opt_string, json_quote, json_string_literal};
use crate::openclaw_config::{osv, GatewayConfigView, OpenClawGatewayConfig};
use crate::text::{
    chars_of, non_blank, non_blank_of, opt_as_str, opt_view, push_str, str_eq, string_from_chars,
    sub_vec, trim, trim_char_end, trim_string, lemma_trim_idempotent,
};
use crate::url_model::{
    form_urlencode, form_urlencoded, parse_outcome, parse_url, set_fragment_of, set_path_of,
    set_query_of, url_parse_result, url_set_fragment, url_set_path, url_set_query, UrlParts,
    UrlView,
};

verus! {

/// The Control UI HTTP URL, its WebSocket address and the credentials it is opened with.
#[derive(Debug, Clone)]
pub struct DashboardAuth {
    pub http_url: UrlParts,
    pub ws_url: String,
    pub token: Option<String>,
    pub password: Option<String>,
}

/// `gateway.controlUi.basePath` normalized: trimmed, `/` when empty, with one leading
/// `/` and no trailing ones (a lone `/` stays).
pub open spec fn base_path_of(raw: Option<Seq<char>>) -> Seq<char> {
    let t = trim(
        match raw {
            Some(v) => v,
            None => "/"@,
        },
    );
    if t.len() == 0 {
        "/"@
    } else {
        let w = if t[0] == '/' {
            t
        } else {
            seq!['/'] + t
        };
        if w.len() > 1 && w.last() == '/' {
            trim_char_end(w, '/')
        } else {
            w
        }
    }
}

/// The host the dashboard is reached on: the saved host when it is not blank, else
/// loopback.
pub open spec fn dashboard_host(s: SettingsView) -> Seq<char> {
    or_text(keep_non_blank(s.host), "127.0.0.1"@)
}

/// The saved port, or when it is 0 the configured one, else the default port.
pub open spec fn dashboard_port(s: SettingsView, g: GatewayConfigView) -> u16 {
    if s.port != 0 {
        s.port
    } else {
        match g.port {
            Some(p) => p,
            None => 18789,
        }
    }
}

/// TLS when the settings or the gateway config ask for it.
pub open spec fn dashboard_tls(s: SettingsView, g: GatewayConfigView) -> bool {
    s.use_tls || g.tls_enabled == Some(true)
}

/// The configured Control UI base path in local mode, `/` in remote mode.
pub open spec fn dashboard_base_path(s: SettingsView, g: GatewayConfigView) -> Seq<char> {
    if s.mode == ConnectionMode::Local {
        base_path_of(g.control_ui_base_path)
    } else {
        "/"@
    }
}

/// `://host:port/base` of the dashboard.
pub open spec fn dashboard_address(s: SettingsView, g: GatewayConfigView) -> Seq<char> {
    "://"@ + dashboard_host(s) + ":"@ + decimal(dashboard_port(s, g) as nat) + dashboard_base_path(
        s,
        g,
    )
}

/// The dashboard's HTTP URL text.
pub open spec fn dashboard_http_text(s: SettingsView, g: GatewayConfigView) -> Seq<char> {
    (if dashboard_tls(s, g) {
        "https"@
    } else {
        "http"@
    }) + dashboard_address(s, g)
}

/// The dashboard's WebSocket URL text.
pub open spec fn dashboard_ws_text(s: SettingsView, g: GatewayConfigView) -> Seq<char> {
    (if dashboard_tls(s, g) {
        "wss"@
    } else {
        "ws"@
    }) + dashboard_address(s, g)
}

/// The saved token, else `gateway.auth.token`, trimmed, when not blank.
pub open spec fn dashboard_token(s: SettingsView, g: GatewayConfigView) -> Option<Seq<char>> {
    non_blank(or_opt(s.token, g.auth_token))
}

/// The saved password, else `gateway.auth.password`, trimmed, when not blank.
pub open spec fn dashboard_password(s: SettingsView, g: GatewayConfigView) -> Option<Seq<char>> {
    non_blank(or_opt(s.password, g.auth_password))
}

/// The `token=…` fragment for a non-empty token, form-urlencoded.
pub open spec fn token_fragment(token: Option<Seq<char>>) -> Option<Seq<char>> {
    match token {
        Some(t) => if t.len() > 0 {
            Some("token="@ + form_urlencoded(vstd::utf8::encode_utf8(t)))
        } else {
            None
        },
        None => None,
    }
}

/// `u` with the token fragment set (see `set_fragment_of`), or `u` itself without a
/// token.
pub open spec fn with_token_fragment(u: UrlView, token: Option<Seq<char>>) -> Result<UrlView, Seq<char>> {
    match token_fragment(token) {
        Some(f) => set_fragment_of(u, f),
        None => Ok(u),
    }
}

/// The `session=…` query for a WebChat session key, form-urlencoded.
pub open spec fn session_query(key: Seq<char>) -> Seq<char> {
    "session="@ + form_urlencoded(vstd::utf8::encode_utf8(key))
}

/// The Control UI chat tab for the dashboard URL `u`: the chat path under its base path,
/// the `session` query when a session is given, and the token fragment.
pub open spec fn chat_url_of(u: UrlView, session: Option<Seq<char>>, token: Option<Seq<char>>) -> Result<
    UrlView,
    Seq<char>,
> {
    match set_path_of(u, chat_path_of(u.path)) {
        Err(e) => Err(e),
        Ok(p) => {
            let q = match session {
                Some(k) => set_query_of(p, session_query(k)),
                None => Ok(p),
            };
            match q {
                Err(e) => Err(e),
                Ok(v) => with_token_fragment(v, token),
            }
        },
    }
}

/// The chat tab's path under a base path: `/chat`, or `<base>/chat` without doubled
/// slashes.
pub open spec fn chat_path_of(path: Seq<char>) -> Seq<char> {
    let p = trim_char_end(path, '/');
    if p.len() == 0 || p == "/"@ {
        "/chat"@
    } else {
        p + "/chat"@
    }
}

/// The JSON object handed to the Control UI (keys in `serde_json`'s sorted order).
pub open spec fn auth_payload_json(
    ws: Seq<char>,
    token: Option<Seq<char>>,
    password: Option<Seq<char>>,
) -> Seq<char> {
    "{\"gatewayUrl\":"@ + json_string_literal(ws) + ",\"password\":"@ + json_opt_string(password)
        + ",\"token\":"@ + json_opt_string(token) + "}"@
}

/// The script that defines `window.__OPENCLAW_NATIVE_CONTROL_AUTH__` in the window.
pub open spec fn auth_init_script(
    ws: Seq<char>,
    token: Option<Seq<char>>,
    password: Option<Seq<char>>,
) -> Seq<char> {
    "(function(){try{Object.defineProperty(window,\"__OPENCLAW_NATIVE_CONTROL_AUTH__\",{value:"@
        + auth_payload_json(ws, token, password) + ",configurable:true});}catch(e){}})();"@
}

/// The end of `v` once trailing `/` are dropped.
fn trailing_slashes_cut(v: &Vec<char>) -> (end: usize)
    ensures
        end <= v.len(),
        v@.subrange(0, end as int) == trim_char_end(v@, '/'),
{
    let mut end: usize = v.len();
    assert(v@.subrange(0, end as int) =~= v@);
    while end > 0 && v[end - 1] == '/'
        invariant
            end <= v.len(),
            trim_char_end(v@, '/') == trim_char_end(v@.subrange(0, end as int), '/'),
        decreases end,
    {
        assert(v@.subrange(0, end as int).drop_last() =~= v@.subrange(0, end - 1));
        end = end - 1;
    }
    end
}

/// Normalizes `gateway.controlUi.basePath` (see `base_path_of`).
pub fn normalize_base_path(raw: Option<&str>) -> (r: String)
    ensures
        r@ == base_path_of(opt_view(raw)),
{
    let src = match raw {
        Some(s) => s,
        None => "/",
    };
    let t = trim_string(src);
    if t.as_str().is_empty() {
        return String::from_str("/");
    }
    let tv = chars_of(t.as_str());
    let mut w: Vec<char> = Vec::new();
    if tv[0] != '/' {
        w.push('/');
    }
    push_str(&mut w, t.as_str());
    proof {
        reveal_strlit("/");
        if tv@[0] != '/' {
            assert(w@ =~= seq!['/'] + t@);
        } else {
            assert(w@ =~= t@);
        }
    }
    if w.len() > 1 && w[w.len() - 1] == '/' {
        let end = trailing_slashes_cut(&w);
        let out = sub_vec(&w, 0, end);
        string_from_chars(&out)
    } else {
        string_from_chars(&w)
    }
}

/// The host the dashboard's HTTP URL uses when none is saved: loopback in every mode.
pub fn default_http_host(mode: ConnectionMode, bind: Option<&str>) -> (r: String)
    ensures
        r@ == "127.0.0.1"@,
{
    if mode == ConnectionMode::Remote {
        return String::from_str("127.0.0.1");
    }
    match bind {
        Some(b) => if str_eq(b, "lan") || str_eq(b, "custom") {
            String::from_str("127.0.0.1")
        } else {
            String::from_str("127.0.0.1")
        },
        None => String::from_str("127.0.0.1"),
    }
}

/// `://host:port/base` for the given parts.
fn address_text(host: &str, port: u16, base: &str) -> (r: String)
    ensures
        r@ == "://"@ + host@ + ":"@ + decimal(port as nat) + base@,
{
    let mut out = String::from_str("://");
    out.append(host);
    out.append(":");
    let p = decimal_string(port as u64);
    out.append(p.as_str());
    out.append(base);
    out
}

/// Builds the Control UI HTTP URL and the auth material for its window: host, port, TLS
/// and base path from the settings and the OpenClaw config (see `dashboard_http_text`),
/// credentials from the settings, else `gateway.auth`. Fails when the URL does not parse.
pub fn resolve_dashboard_auth(
    settings: &GatewayConnectionSettings,
    gateway: &OpenClawGatewayConfig,
) -> (r: Result<DashboardAuth, String>)
    ensures
        match url_parse_result(dashboard_http_text(settings@, gateway@)) {
            Ok(u) => r matches Ok(a) && a.http_url@ == u && a.ws_url@ == dashboard_ws_text(
                settings@,
                gateway@,
            ) && osv(a.token) == dashboard_token(settings@, gateway@) && osv(a.password)
                == dashboard_password(settings@, gateway@),
            Err(e) => r matches Err(m) && m@ == "invalid dashboard url: "@ + e,
        },
{
    let saved_host: Option<String> = match &settings.host {
        Some(h) => {
            let t = trim_string(h.as_str());
            if t.as_str().is_empty() {
                None
            } else {
                Some(h.clone())
            }
        },
        None => None,
    };
    let host = match saved_host {
        Some(h) => h,
        None => default_http_host(settings.mode, opt_as_str(&gateway.bind)),
    };
    let port: u16 = if settings.port != 0 {
        settings.port
    } else {
        match gateway.port {
            Some(p) => p,
            None => 18789,
        }
    };
    let tls = settings.use_tls || match gateway.tls_enabled {
        Some(b) => b,
        None => false,
    };
    let base_path = if settings.mode == ConnectionMode::Local {
        normalize_base_path(opt_as_str(&gateway.control_ui_base_path))
    } else {
        String::from_str("/")
    };
    let address = address_text(host.as_str(), port, base_path.as_str());
    let mut http_text = if tls {
        String::from_str("https")
    } else {
        String::from_str("http")
    };
    http_text.append(address.as_str());
    let http_url = match parse_url(http_text.as_str()) {
        Ok(u) => u,
        Err(e) => {
            let mut m = String::from_str("invalid dashboard url: ");
            m.append(e.as_str());
            return Err(m);
        },
    };
    let mut ws_url = if tls {
        String::from_str("wss")
    } else {
        String::from_str("ws")
    };
    ws_url.append(address.as_str());
    let token_src = match &settings.token {
        Some(t) => Some(t.as_str()),
        None => opt_as_str(&gateway.auth_token),
    };
    let token = non_blank_of(token_src);
    let password_src = match &settings.password {
        Some(p) => Some(p.as_str()),
        None => opt_as_str(&gateway.auth_password),
    };
    let password = non_blank_of(password_src);
    Ok(DashboardAuth { http_url, ws_url, token, password })
}

/// `url` with `#token=<form-urlencoded token>` when the token is present and not empty,
/// else `url` unchanged (see `with_token_fragment`).
pub fn dashboard_url_with_token_fragment(url: UrlParts, token: Option<&str>) -> (r: Result<
    UrlParts,
    String,
>)
    ensures
        parse_outcome(r) == with_token_fragment(url@, opt_view(token)),
{
    match token {
        Some(t) => {
            if t.is_empty() {
                Ok(url)
            } else {
                let encoded = form_urlencode(t);
                let mut fragment = String::from_str("token=");
                fragment.append(encoded.as_str());
                url_set_fragment(&url, fragment.as_str())
            }
        },
        None => Ok(url),
    }
}

/// The chat path for a dashboard path (see `chat_path_of`).
fn chat_path(path: &str) -> (r: String)
    ensures
        r@ == chat_path_of(path@),
{
    let pv = chars_of(path);
    let end = trailing_slashes_cut(&pv);
    let p = string_from_chars(&sub_vec(&pv, 0, end));
    if p.as_str().is_empty() || str_eq(p.as_str(), "/") {
        String::from_str("/chat")
    } else {
        let mut c = p.clone();
        c.append("/chat");
        c
    }
}

/// The Control UI chat tab with an optional `session` query (see `chat_url_of`).
pub fn control_ui_chat_url_with_session(auth: &DashboardAuth, session: Option<&str>) -> (r: Result<
    UrlParts,
    String,
>)
    ensures
        parse_outcome(r) == chat_url_of(auth.http_url@, opt_view(session), osv(auth.token)),
{
    let cp = chat_path(auth.http_url.path.as_str());
    let url = match url_set_path(&auth.http_url, cp.as_str()) {
        Ok(u) => u,
        Err(e) => return Err(e),
    };
    let url = match session {
        Some(k) => {
            let mut q = String::from_str("session=");
            let enc = form_urlencode(k);
            q.append(enc.as_str());
            match url_set_query(&url, q.as_str()) {
                Ok(u) => u,
                Err(e) => return Err(e),
            }
        },
        None => url,
    };
    dashboard_url_with_token_fragment(url, opt_as_str(&auth.token))
}

/// The Control UI chat tab: `chat` under the dashboard's base path, with the token
/// fragment (see `chat_url_of`).
pub fn control_ui_chat_url(auth: &DashboardAuth) -> (r: Result<UrlParts, String>)
    ensures
        parse_outcome(r) == chat_url_of(auth.http_url@, None, osv(auth.token)),
{
    control_ui_chat_url_with_session(auth, None)
}

/// Appends the JSON of an optional string.
fn append_json_opt(out: &mut String, v: &Option<String>)
    ensures
        final(out)@ == old(out)@ + json_opt_string(osv(*v)),
{
    match v {
        Some(s) => {
            let q = json_quote(s.as_str());
            out.append(q.as_str());
        },
        None => out.append("null"),
    }
}

/// The script that hands the gateway URL and credentials to the Control UI window.
pub fn native_control_auth_init_script(auth: &DashboardAuth) -> (r: String)
    ensures
        r@ == auth_init_script(auth.ws_url@, osv(auth.token), osv(auth.password)),
{
    let mut out = String::from_str(
        "(function(){try{Object.defineProperty(window,\"__OPENCLAW_NATIVE_CONTROL_AUTH__\",{value:",
    );
    out.append("{\"gatewayUrl\":");
    let ws = json_quote(auth.ws_url.as_str());
    out.append(ws.as_str());
    out.append(",\"password\":");
    append_json_opt(&mut out, &auth.password);
    out.append(",\"token\":");
    append_json_opt(&mut out, &auth.token);
    out.append("}");
    out.append(",configurable:true});}catch(e){}})();");
    out
}

/// What the dashboard window opens: the dashboard URL with the token fragment, and the
/// auth script; the error when the dashboard URL does not parse.
pub fn dashboard_launch(settings: &GatewayConnectionSettings, gateway: &OpenClawGatewayConfig) -> (r:
    Result<(UrlParts, String), String>)
    ensures
        match url_parse_result(dashboard_http_text(settings@, gateway@)) {
            Ok(u) => match with_token_fragment(u, dashboard_token(settings@, gateway@)) {
                Ok(v) => r matches Ok(p) && p.0@ == v && p.1@ == auth_init_script(
                    dashboard_ws_text(settings@, gateway@),
                    dashboard_token(settings@, gateway@),
                    dashboard_password(settings@, gateway@),
                ),
                Err(e) => r matches Err(m) && m@ == e,
            },
            Err(e) => r matches Err(m) && m@ == "invalid dashboard url: "@ + e,
        },
{
    let auth = match resolve_dashboard_auth(settings, gateway) {
        Ok(a) => a,
        Err(e) => return Err(e),
    };
    let script = native_control_auth_init_script(&auth);
    let DashboardAuth { http_url, ws_url: _, token, password: _ } = auth;
    match dashboard_url_with_token_fragment(http_url, opt_as_str(&token)) {
        Ok(url) => Ok((url, script)),
        Err(e) => Err(e),
    }
}

/// What the WebChat window opens: the chat tab URL for the resolved session (an explicit
/// one, else the saved last session; see `resolved_session`) with the token fragment, the
/// window title for that session, and the auth script; the error when the dashboard URL
/// does not parse. The session key must be one the title can shorten (see
/// `webchat_window_title`).
pub fn webchat_launch(
    settings: &GatewayConnectionSettings,
    gateway: &OpenClawGatewayConfig,
    explicit: Option<&str>,
) -> (r: Result<(UrlParts, String, String), String>)
    requires
        match resolved_session(opt_view(explicit), settings@.last_webchat_session) {
            Some(key) => title_key_cut_ok(key),
            None => true,
        },
    ensures
        ({
            let session = resolved_session(opt_view(explicit), settings@.last_webchat_session);
            match url_parse_result(dashboard_http_text(settings@, gateway@)) {
                Ok(u) => match chat_url_of(u, session, dashboard_token(settings@, gateway@)) {
                    Ok(v) => r matches Ok(p) && p.0@ == v && p.1@ == webchat_title(session)
                        && p.2@ == auth_init_script(
                        dashboard_ws_text(settings@, gateway@),
                        dashboard_token(settings@, gateway@),
                        dashboard_password(settings@, gateway@),
                    ),
                    Err(e) => r matches Err(m) && m@ == e,
                },
                Err(e) => r matches Err(m) && m@ == "invalid dashboard url: "@ + e,
            }
        }),
{
    let session = GatewayConnectionSettings::resolved_webchat_session(
        explicit,
        opt_as_str(&settings.last_webchat_session),
    );
    proof {
        if opt_view(explicit) is Some {
            lemma_trim_idempotent(opt_view(explicit)->0);
        }
        if settings@.last_webchat_session is Some {
            lemma_trim_idempotent(settings@.last_webchat_session->0);
        }
    }
    let title = GatewayConnectionSettings::webchat_window_title(opt_as_str(&session));
    let auth = match resolve_dashboard_auth(settings, gateway) {
        Ok(a) => a,
        Err(e) => return Err(e),
    };
    let script = native_control_auth_init_script(&auth);
    match control_ui_chat_url_with_session(&auth, opt_as_str(&session)) {
        Ok(url) => Ok((url, title, script)),
        Err(e) => Err(e),
    }
}

/// Where a built Control UI may be found, in the order tried: under the repository root
/// when one is configured, beside the app's sources, then in the working directory.
pub open spec fn control_ui_candidates(manifest_dir: Seq<char>, repo_root: Option<Seq<char>>) -> Seq<
    Seq<char>,
> {
    let base = seq![
        path_join(path_join(manifest_dir, "../../../.."@), "dist/control-ui/index.html"@),
        "dist/control-ui/index.html"@,
    ];
    match repo_root {
        Some(root) => seq![path_join(root, "dist/control-ui/index.html"@)] + base,
        None => base,
    }
}

/// The candidate Control UI pages (see `control_ui_candidates`).
pub fn control_ui_index_candidates(manifest_dir: &str, repo_root: Option<&str>) -> (r: Vec<String>)
    ensures
        views(r@) == control_ui_candidates(manifest_dir@, opt_view(repo_root)),
{
    let mut v: Vec<String> = Vec::new();
    match repo_root {
        Some(root) => {
            v.push(join_path(root, "dist/control-ui/index.html"));
        },
        None => {},
    }
    let up = join_path(manifest_dir, "../../../..");
    v.push(join_path(up.as_str(), "dist/control-ui/index.html"));
    v.push(String::from_str("dist/control-ui/index.html"));
    assert(views(v@) =~= control_ui_candidates(manifest_dir@, opt_view(repo_root)));
    v
}

/// The built Control UI page: the first candidate that exists.
pub fn resolve_control_ui_index(manifest_dir: &str, repo_root: Option<&str>) -> (r: Option<String>)
    ensures
        is_first_accepted(control_ui_candidates(manifest_dir@, opt_view(repo_root)), opt_string(r)),
{
    first_existing(control_ui_index_candidates(manifest_dir, repo_root))
}

/// The dashboard credentials are the saved ones, else `gateway.auth`'s, trimmed, and
/// dropped when blank: a saved value decides on its own (blank gives none), and only an
/// unset saved value falls back to the gateway's.
pub proof fn law_dashboard_credentials(s: SettingsView, g: GatewayConfigView)
    ensures
        s.password matches Some(p) ==> dashboard_password(s, g) == (if trim(p).len() > 0 {
            Some(trim(p))
        } else {
            None
        }),
        s.password is None ==> dashboard_password(s, g) == match g.auth_password {
            Some(p) => if trim(p).len() > 0 {
                Some(trim(p))
            } else {
                None
            },
            None => None,
        },
        s.token matches Some(t) ==> dashboard_token(s, g) == (if trim(t).len() > 0 {
            Some(trim(t))
        } else {
            None
        }),
        s.token is None ==> dashboard_token(s, g) == match g.auth_token {
            Some(t) => if trim(t).len() > 0 {
                Some(trim(t))
            } else {
                None
            },
            None => None,
        },
{
}

} // verus!
