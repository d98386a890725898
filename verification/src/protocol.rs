//! The gateway WebSocket handshake: who connects, with what, and the `connect` request.
use vstd::prelude::*;
use crate::crypto::{ed25519_signature_of, now_unix_ms};
use crate::device_auth::{
    connect_device_at, device_auth_payload_v3, public_key_raw_of, secret_key_raw_of, utf8_of,
    views, ConnectDevice, DeviceSigningMaterial,
};
use crate::encoding::b64_url_no_pad;
use crate::encoding::{decimal, decimal_string};
use crate::gateway_config::GatewayConnectionSettings;
use crate::json::{
    append_json_flag_object, append_json_string_array, flag_views, json_flag_object, json_quote,
    json_string_array, json_string_literal,
};
use crate::node_caps::{
    advertised_caps, advertised_commands, advertised_permissions, linux_node_advertisement,
};
use crate::openclaw_config::osv;
use crate::text::{clone_opt, non_blank, non_blank_of, opt_as_str, opt_view, str_eq, text_less, text_lt};

verus! {

/// The protocol version this client speaks.
pub const PROTOCOL_VERSION: u32 = 4;

/// The oldest protocol version this client accepts.
pub const MIN_CLIENT_PROTOCOL_VERSION: u32 = 4;

/// The client id the Linux companion presents.
pub const CLIENT_ID_LINUX: &'static str = "openclaw-linux";

/// The client id the Linux node presents.
pub const CLIENT_ID_LINUX_NODE: &'static str = "openclaw-linux";

/// The role a connection takes on the gateway.
#[derive(Debug, Clone, Copy, PartialEq, Eq, Structural)]
pub enum GatewayRole {
    Operator,
    Node,
}

/// The wire name of a role.
pub open spec fn role_name(r: GatewayRole) -> Seq<char> {
    match r {
        GatewayRole::Operator => "operator"@,
        GatewayRole::Node => "node"@,
    }
}

impl GatewayRole {
    /// The wire name of the role (`operator` or `node`).
    pub fn name(&self) -> (r: &'static str)
        ensures
            r@ == role_name(*self),
    {
        match self {
            GatewayRole::Operator => "operator",
            GatewayRole::Node => "node",
        }
    }
}

/// What a client announces in its `connect` request.
#[derive(Debug, Clone)]
pub struct ConnectParams {
    pub role: GatewayRole,
    pub client_version: String,
    pub platform: String,
    pub mode: String,
    pub caps: Vec<String>,
    pub commands: Vec<String>,
    /// Named permission flags, a map held in ascending key order (see `well_formed`).
    pub permissions: Vec<(String, bool)>,
    pub scopes: Vec<String>,
    pub auth_token: Option<String>,
    pub auth_password: Option<String>,
    pub device_signing: Option<DeviceSigningMaterial>,
}

/// Named flags in strictly ascending key order, so no key occurs twice.
pub open spec fn keys_ascending(flags: Seq<(Seq<char>, bool)>) -> bool {
    forall|i: int, j: int|
        0 <= i < j < flags.len() ==> text_less(#[trigger] flags[i].0, #[trigger] flags[j].0)
}

impl ConnectParams {
    /// The permission map is held in ascending key order.
    pub open spec fn well_formed(&self) -> bool {
        keys_ascending(flag_views(self.permissions@))
    }

    /// Whether the permission keys are in ascending order (see `well_formed`).
    pub fn permissions_in_order(&self) -> (r: bool)
        ensures
            r == self.well_formed(),
    {
        let n = self.permissions.len();
        let mut i: usize = 0;
        while i < n
            invariant
                n == self.permissions@.len(),
                i <= n,
                forall|a: int, b: int|
                    0 <= a < i && a < b < n ==> text_less(
                        #[trigger] flag_views(self.permissions@)[a].0,
                        #[trigger] flag_views(self.permissions@)[b].0,
                    ),
            decreases n - i,
        {
            let mut j: usize = i + 1;
            while j < n
                invariant
                    n == self.permissions@.len(),
                    i < n,
                    i + 1 <= j <= n,
                    forall|a: int, b: int|
                        0 <= a < i && a < b < n ==> text_less(
                            #[trigger] flag_views(self.permissions@)[a].0,
                            #[trigger] flag_views(self.permissions@)[b].0,
                        ),
                    forall|b: int|
                        i < b < j ==> text_less(
                            flag_views(self.permissions@)[i as int].0,
                            #[trigger] flag_views(self.permissions@)[b].0,
                        ),
                decreases n - j,
            {
                if !text_lt(self.permissions[i].0.as_str(), self.permissions[j].0.as_str()) {
                    proof {
                        let f = flag_views(self.permissions@);
                        assert(!text_less(f[i as int].0, f[j as int].0));
                    }
                    return false;
                }
                j = j + 1;
            }
            i = i + 1;
        }
        true
    }
}

/// The scopes an operator connection asks for.
pub open spec fn operator_scopes() -> Seq<Seq<char>> {
    seq!["operator.read"@, "operator.write"@, "operator.admin"@, "operator.pairing"@]
}

/// The user agent of the client at `version`.
pub open spec fn user_agent_of(version: Seq<char>) -> Seq<char> {
    "openclaw-linux/"@ + version
}

/// The `auth` object: the password and token that are present, in key order.
pub open spec fn auth_json(token: Option<Seq<char>>, password: Option<Seq<char>>) -> Seq<char> {
    match (password, token) {
        (Some(p), Some(t)) => "{\"password\":"@ + json_string_literal(p) + ",\"token\":"@
            + json_string_literal(t) + "}"@,
        (Some(p), None) => "{\"password\":"@ + json_string_literal(p) + "}"@,
        (None, Some(t)) => "{\"token\":"@ + json_string_literal(t) + "}"@,
        (None, None) => "{}"@,
    }
}

/// The `device` object of a signed connect request.
pub open spec fn device_json(d: ConnectDevice) -> Seq<char> {
    "{\"id\":"@ + json_string_literal(d.id@) + ",\"nonce\":"@ + json_string_literal(d.nonce@)
        + ",\"publicKey\":"@ + json_string_literal(d.public_key@) + ",\"signature\":"@
        + json_string_literal(d.signature@) + ",\"signedAt\":"@ + decimal(d.signed_at as nat)
        + "}"@
}

/// The opening members of the `connect` params: `auth`, `caps`, `client` and `commands`.
pub open spec fn connect_head(p: ConnectParams) -> Seq<char> {
    "{\"auth\":"@ + auth_json(osv(p.auth_token), osv(p.auth_password)) + ",\"caps\":"@
        + json_string_array(views(p.caps@)) + ",\"client\":{\"id\":"@ + json_string_literal(
        "openclaw-linux"@,
    ) + ",\"mode\":"@ + json_string_literal(p.mode@) + ",\"platform\":"@ + json_string_literal(
        p.platform@,
    ) + ",\"version\":"@ + json_string_literal(p.client_version@) + "}"@ + ",\"commands\":"@
        + json_string_array(views(p.commands@))
}

/// The `device` member, when there is a device block.
pub open spec fn device_member(device: Option<ConnectDevice>) -> Seq<char> {
    match device {
        Some(d) => ",\"device\":"@ + device_json(d),
        None => Seq::empty(),
    }
}

/// `prefix` followed by the closing members of the `connect` params: `locale`, the
/// protocol range, `permissions`, `role`, `scopes` and `userAgent`.
pub open spec fn connect_tail(prefix: Seq<char>, p: ConnectParams) -> Seq<char> {
    prefix + ",\"locale\":"@ + json_string_literal("en-US"@) + ",\"maxProtocol\":"@ + decimal(4)
        + ",\"minProtocol\":"@ + decimal(4) + ",\"permissions\":"@ + json_flag_object(
        flag_views(p.permissions@),
    ) + ",\"role\":"@ + json_string_literal(role_name(p.role)) + ",\"scopes\":"@
        + json_string_array(views(p.scopes@)) + ",\"userAgent\":"@ + json_string_literal(
        user_agent_of(p.client_version@),
    ) + "}"@
}

/// The params of the `connect` request, keys in `serde_json`'s sorted order.
pub open spec fn connect_json(p: ConnectParams, device: Option<ConnectDevice>) -> Seq<char> {
    connect_tail(connect_head(p) + device_member(device), p)
}

/// The user agent the client sends (`openclaw-linux/<version>`).
pub fn user_agent(client_version: &str) -> (r: String)
    ensures
        r@ == user_agent_of(client_version@),
{
    let mut s = String::from_str("openclaw-linux/");
    s.append(client_version);
    s
}

/// The operator connection: UI mode on Linux, the four operator scopes, the saved
/// credentials and the device key, nothing advertised.
pub fn operator_connect_params(
    settings: &GatewayConnectionSettings,
    material: DeviceSigningMaterial,
    client_version: &str,
) -> (r: ConnectParams)
    ensures
        r.role == GatewayRole::Operator,
        r.client_version@ == client_version@,
        r.platform@ == "linux"@,
        r.mode@ == "ui"@,
        r.caps@.len() == 0,
        r.commands@.len() == 0,
        r.permissions@.len() == 0,
        r.well_formed(),
        views(r.scopes@) == operator_scopes(),
        osv(r.auth_token) == settings@.token,
        osv(r.auth_password) == settings@.password,
        r.device_signing == Some(material),
{
    let mut scopes: Vec<String> = Vec::new();
    scopes.push(String::from_str("operator.read"));
    scopes.push(String::from_str("operator.write"));
    scopes.push(String::from_str("operator.admin"));
    scopes.push(String::from_str("operator.pairing"));
    assert(views(scopes@) =~= operator_scopes());
    ConnectParams {
        role: GatewayRole::Operator,
        client_version: String::from_str(client_version),
        platform: String::from_str("linux"),
        mode: String::from_str("ui"),
        caps: Vec::new(),
        commands: Vec::new(),
        permissions: Vec::new(),
        scopes,
        auth_token: clone_opt(&settings.token),
        auth_password: clone_opt(&settings.password),
        device_signing: Some(material),
    }
}

/// The node connection: node mode on Linux, the capabilities, commands and permissions
/// that the settings' capture flags advertise, no scopes, the saved credentials and the
/// device key.
pub fn node_connect_params(
    settings: &GatewayConnectionSettings,
    material: DeviceSigningMaterial,
    client_version: &str,
) -> (r: ConnectParams)
    ensures
        r.role == GatewayRole::Node,
        r.client_version@ == client_version@,
        r.platform@ == "linux"@,
        r.mode@ == "node"@,
        views(r.caps@) == advertised_caps(
            settings.camera_enabled,
            settings.location_enabled,
            settings.screen_enabled,
            settings.talk_enabled,
        ),
        views(r.commands@) == advertised_commands(
            settings.camera_enabled,
            settings.location_enabled,
            settings.screen_enabled,
            settings.talk_enabled,
        ),
        flag_views(r.permissions@) == advertised_permissions(
            settings.camera_enabled,
            settings.screen_enabled,
        ),
        r.well_formed(),
        r.scopes@.len() == 0,
        osv(r.auth_token) == settings@.token,
        osv(r.auth_password) == settings@.password,
        r.device_signing == Some(material),
{
    let (camera, location, screen, talk) = settings.node_advertisement_flags();
    let (caps, commands, permissions) = linux_node_advertisement(camera, location, screen, talk);
    assert(views(caps@) =~= crate::node_caps::strings_view(caps@));
    assert(views(commands@) =~= crate::node_caps::strings_view(commands@));
    assert(flag_views(permissions@) =~= crate::node_caps::flags_view(permissions@));
    proof {
        reveal_strlit("camera.capture");
        reveal_strlit("screen.record");
        let f = flag_views(permissions@);
        assert(f[0].0[0] == 'c' && f[1].0[0] == 's');
        assert(text_less(f[0].0, f[1].0));
    }
    ConnectParams {
        role: GatewayRole::Node,
        client_version: String::from_str(client_version),
        platform: String::from_str("linux"),
        mode: String::from_str("node"),
        caps,
        commands,
        permissions,
        scopes: Vec::new(),
        auth_token: clone_opt(&settings.token),
        auth_password: clone_opt(&settings.password),
        device_signing: Some(material),
    }
}

/// The params carry a device key whose private and public PEMs both parse.
pub open spec fn can_sign(params: ConnectParams) -> bool {
    params.device_signing matches Some(m) && secret_key_raw_of(m.private_key_pem@) is Some
        && public_key_raw_of(m.public_key_pem@) is Some
}

/// `d` is the device block for `params` signed at `t` over `nonce`: the device id, the
/// raw public key and the signature of the v3 payload over the Linux client id, the
/// params' mode, role, scopes, token and platform, `t` and the nonce.
pub open spec fn signed_handshake_device(params: ConnectParams, nonce: Seq<char>, t: u64, d: ConnectDevice) -> bool {
    params.device_signing matches Some(m) && secret_key_raw_of(m.private_key_pem@) matches Some(s)
        && public_key_raw_of(m.public_key_pem@) matches Some(p) && d.id@ == m.device_id@
        && d.public_key@ == b64_url_no_pad(p) && d.signature@ == b64_url_no_pad(
        ed25519_signature_of(
            s,
            utf8_of(
                device_auth_payload_v3(
                    m.device_id@,
                    CLIENT_ID_LINUX@,
                    params.mode@,
                    role_name(params.role),
                    views(params.scopes@),
                    t as nat,
                    osv(params.auth_token),
                    nonce,
                    Some(params.platform@),
                    None,
                ),
            ),
        ),
    ) && d.signed_at == t && d.nonce@ == nonce
}

/// The signed device block for the handshake at time `signed_at_ms`: present exactly when
/// the gateway sent a challenge nonce and the params carry a device key whose PEMs parse
/// (see `signed_handshake_device`).
pub fn handshake_device_at(params: &ConnectParams, challenge_nonce: Option<&str>, signed_at_ms: u64) -> (r:
    Option<ConnectDevice>)
    ensures
        match opt_view(challenge_nonce) {
            Some(n) => if can_sign(*params) {
                r matches Some(d) && signed_handshake_device(*params, n, signed_at_ms, d)
            } else {
                r is None
            },
            None => r is None,
        },
{
    match (challenge_nonce, &params.device_signing) {
        (Some(nonce), Some(material)) => connect_device_at(
            material,
            CLIENT_ID_LINUX,
            params.mode.as_str(),
            params.role.name(),
            params.scopes.as_slice(),
            opt_as_str(&params.auth_token),
            nonce,
            Some(params.platform.as_str()),
            signed_at_ms,
        ),
        _ => None,
    }
}

/// The signed device block for the handshake, signed now (see `handshake_device_at`):
/// none without a challenge nonce or a usable device key, or when the clock reads before
/// the epoch.
pub fn handshake_device(params: &ConnectParams, challenge_nonce: Option<&str>) -> (r: Option<
    ConnectDevice,
>)
    ensures
        (challenge_nonce is None || !can_sign(*params)) ==> r is None,
        r matches Some(d) ==> opt_view(challenge_nonce) == Some(d.nonce@) && signed_handshake_device(
            *params,
            d.nonce@,
            d.signed_at,
            d,
        ),
{
    match now_unix_ms() {
        Some(t) => handshake_device_at(params, challenge_nonce, t),
        None => None,
    }
}

/// Appends the `auth` object.
fn append_auth_json(out: &mut String, token: &Option<String>, password: &Option<String>)
    ensures
        final(out)@ == old(out)@ + auth_json(osv(*token), osv(*password)),
{
    match (password, token) {
        (Some(p), Some(t)) => {
            out.append("{\"password\":");
            out.append(json_quote(p.as_str()).as_str());
            out.append(",\"token\":");
            out.append(json_quote(t.as_str()).as_str());
            out.append("}");
        },
        (Some(p), None) => {
            out.append("{\"password\":");
            out.append(json_quote(p.as_str()).as_str());
            out.append("}");
        },
        (None, Some(t)) => {
            out.append("{\"token\":");
            out.append(json_quote(t.as_str()).as_str());
            out.append("}");
        },
        (None, None) => out.append("{}"),
    }
}

/// The opening members of the `connect` params (see `connect_head`).
fn connect_head_text(params: &ConnectParams) -> (r: String)
    ensures
        r@ == connect_head(*params),
{
    let mut out = String::from_str("{\"auth\":");
    append_auth_json(&mut out, &params.auth_token, &params.auth_password);
    out.append(",\"caps\":");
    append_json_string_array(&mut out, &params.caps);
    out.append(",\"client\":{\"id\":");
    out.append(json_quote(CLIENT_ID_LINUX).as_str());
    out.append(",\"mode\":");
    out.append(json_quote(params.mode.as_str()).as_str());
    out.append(",\"platform\":");
    out.append(json_quote(params.platform.as_str()).as_str());
    out.append(",\"version\":");
    out.append(json_quote(params.client_version.as_str()).as_str());
    out.append("}");
    out.append(",\"commands\":");
    append_json_string_array(&mut out, &params.commands);
    out
}

/// Appends the `device` member.
fn append_device_member(out: &mut String, device: Option<&ConnectDevice>)
    ensures
        final(out)@ == old(out)@ + device_member(
            match device {
                Some(d) => Some(*d),
                None => None,
            },
        ),
{
    match device {
        Some(d) => {
            let ghost start = out@;
            out.append(",\"device\":");
            out.append("{\"id\":");
            out.append(json_quote(d.id.as_str()).as_str());
            out.append(",\"nonce\":");
            out.append(json_quote(d.nonce.as_str()).as_str());
            out.append(",\"publicKey\":");
            out.append(json_quote(d.public_key.as_str()).as_str());
            out.append(",\"signature\":");
            out.append(json_quote(d.signature.as_str()).as_str());
            out.append(",\"signedAt\":");
            out.append(decimal_string(d.signed_at).as_str());
            out.append("}");
            assert(out@ =~= start + (",\"device\":"@ + device_json(*d)));
        },
        None => {
            assert(out@ =~= out@ + Seq::<char>::empty());
        },
    }
}

/// Appends the closing members of the `connect` params (see `connect_tail`).
fn append_connect_tail(out: &mut String, params: &ConnectParams)
    ensures
        final(out)@ == connect_tail(old(out)@, *params),
{
    out.append(",\"locale\":");
    out.append(json_quote("en-US").as_str());
    out.append(",\"maxProtocol\":");
    out.append(decimal_string(PROTOCOL_VERSION as u64).as_str());
    out.append(",\"minProtocol\":");
    out.append(decimal_string(MIN_CLIENT_PROTOCOL_VERSION as u64).as_str());
    out.append(",\"permissions\":");
    append_json_flag_object(out, &params.permissions);
    out.append(",\"role\":");
    out.append(json_quote(params.role.name()).as_str());
    out.append(",\"scopes\":");
    append_json_string_array(out, &params.scopes);
    out.append(",\"userAgent\":");
    let ua = user_agent(params.client_version.as_str());
    out.append(json_quote(ua.as_str()).as_str());
    out.append("}");
}

/// The params of the `connect` request (see `connect_json`).
pub fn connect_request_json(params: &ConnectParams, device: Option<&ConnectDevice>) -> (r: String)
    requires
        params.well_formed(),
    ensures
        r@ == connect_json(
            *params,
            match device {
                Some(d) => Some(*d),
                None => None,
            },
        ),
{
    let mut out = connect_head_text(params);
    append_device_member(&mut out, device);
    append_connect_tail(&mut out, params);
    out
}

/// The outcome of the gateway's reply to `connect`: the server version (trimmed, when
/// not blank) for a `hello-ok` reply, else the connect failure naming the reply.
pub fn hello_outcome(hello_type: Option<&str>, server_version: Option<&str>, hello_text: &str) -> (r:
    Result<Option<String>, String>)
    ensures
        opt_view(hello_type) == Some("hello-ok"@) ==> (r matches Ok(v) && osv(v) == non_blank(
            opt_view(server_version),
        )),
        opt_view(hello_type) != Some("hello-ok"@) ==> (r matches Err(m) && m@
            == "unexpected hello: "@ + hello_text@),
{
    let ok = match hello_type {
        Some(t) => str_eq(t, "hello-ok"),
        None => false,
    };
    if ok {
        Ok(non_blank_of(server_version))
    } else {
        let mut m = String::from_str("unexpected hello: ");
        m.append(hello_text);
        Err(m)
    }
}

/// The challenge nonce carried by an event: the nonce of a `connect.challenge` event.
pub fn challenge_nonce(event: &str, nonce: Option<&str>) -> (r: Option<String>)
    ensures
        event@ == "connect.challenge"@ ==> osv(r) == opt_view(nonce),
        event@ != "connect.challenge"@ ==> r is None,
{
    if str_eq(event, "connect.challenge") {
        match nonce {
            Some(n) => Some(String::from_str(n)),
            None => None,
        }
    } else {
        None
    }
}

/// The text of a failed request: the method and the gateway's message, or
/// `unknown error` when it sent none.
pub fn rpc_failure_text(method: &str, message: Option<&str>) -> (r: String)
    ensures
        r@ == "request "@ + method@ + " failed: "@ + match opt_view(message) {
            Some(m) => m,
            None => "unknown error"@,
        },
{
    let mut s = String::from_str("request ");
    s.append(method);
    s.append(" failed: ");
    match message {
        Some(m) => s.append(m),
        None => s.append("unknown error"),
    }
    s
}

} // verus!
