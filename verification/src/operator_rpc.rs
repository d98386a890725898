//! The operator requests the settings window makes: each gateway method and its params
//! as JSON text (keys in `serde_json`'s sorted order).
use vstd::prelude::*;
use crate::device_auth::views;
use crate::encoding::{decimal, decimal_string};
use crate::json::{append_json_string_array, json_quote, json_string_array, json_string_literal};
use crate::openclaw_config::osv;
use crate::text::{trim, trim_string};

verus! {

/// A gateway request: the method and, when it takes any, its params as JSON text.
#[derive(Debug, Clone)]
pub struct RpcCall {
    pub method: String,
    pub params: Option<String>,
}

/// A request without params.
pub fn call_without_params(method: &str) -> (r: RpcCall)
    ensures
        r.method@ == method@,
        r.params is None,
{
    RpcCall { method: String::from_str(method), params: None }
}

/// The JSON object with the single string member `key`.
pub open spec fn string_member_object(key: Seq<char>, value: Seq<char>) -> Seq<char> {
    "{"@ + json_string_literal(key) + ":"@ + json_string_literal(value) + "}"@
}

/// A request whose params are the single string member `key: value`.
pub fn call_with_string(method: &str, key: &str, value: &str) -> (r: RpcCall)
    ensures
        r.method@ == method@,
        osv(r.params) == Some(string_member_object(key@, value@)),
{
    let mut p = String::from_str("{");
    p.append(json_quote(key).as_str());
    p.append(":");
    p.append(json_quote(value).as_str());
    p.append("}");
    RpcCall { method: String::from_str(method), params: Some(p) }
}

/// `channels.start` for a channel.
pub fn channel_start_call(channel: &str) -> (r: RpcCall)
    ensures
        r.method@ == "channels.start"@,
        osv(r.params) == Some(string_member_object("channel"@, channel@)),
{
    call_with_string("channels.start", "channel", channel)
}

/// `channels.stop` for a channel.
pub fn channel_stop_call(channel: &str) -> (r: RpcCall)
    ensures
        r.method@ == "channels.stop"@,
        osv(r.params) == Some(string_member_object("channel"@, channel@)),
{
    call_with_string("channels.stop", "channel", channel)
}

/// `cron.run` for a job.
pub fn cron_run_call(job_id: &str) -> (r: RpcCall)
    ensures
        r.method@ == "cron.run"@,
        osv(r.params) == Some(string_member_object("id"@, job_id@)),
{
    call_with_string("cron.run", "id", job_id)
}

/// `device.pair.approve` for a request.
pub fn device_pair_approve_call(request_id: &str) -> (r: RpcCall)
    ensures
        r.method@ == "device.pair.approve"@,
        osv(r.params) == Some(string_member_object("requestId"@, request_id@)),
{
    call_with_string("device.pair.approve", "requestId", request_id)
}

/// `device.pair.reject` for a request.
pub fn device_pair_reject_call(request_id: &str) -> (r: RpcCall)
    ensures
        r.method@ == "device.pair.reject"@,
        osv(r.params) == Some(string_member_object("requestId"@, request_id@)),
{
    call_with_string("device.pair.reject", "requestId", request_id)
}

/// `node.pair.approve` for a request.
pub fn node_pair_approve_call(request_id: &str) -> (r: RpcCall)
    ensures
        r.method@ == "node.pair.approve"@,
        osv(r.params) == Some(string_member_object("requestId"@, request_id@)),
{
    call_with_string("node.pair.approve", "requestId", request_id)
}

/// `node.pair.reject` for a request.
pub fn node_pair_reject_call(request_id: &str) -> (r: RpcCall)
    ensures
        r.method@ == "node.pair.reject"@,
        osv(r.params) == Some(string_member_object("requestId"@, request_id@)),
{
    call_with_string("node.pair.reject", "requestId", request_id)
}

/// The params of `sessions.preview`: the keys, and the limit when given.
pub open spec fn preview_params(keys: Seq<Seq<char>>, limit: Option<u32>) -> Seq<char> {
    "{\"keys\":"@ + json_string_array(keys) + (match limit {
        Some(l) => ",\"limit\":"@ + decimal(l as nat),
        None => Seq::empty(),
    }) + "}"@
}

/// `sessions.preview` for some session keys.
pub fn sessions_preview_call(keys: &Vec<String>, limit: Option<u32>) -> (r: RpcCall)
    ensures
        r.method@ == "sessions.preview"@,
        osv(r.params) == Some(preview_params(views(keys@), limit)),
{
    let mut p = String::from_str("{\"keys\":");
    append_json_string_array(&mut p, keys);
    let ghost mid = p@;
    match limit {
        Some(l) => {
            p.append(",\"limit\":");
            let d = decimal_string(l as u64);
            p.append(d.as_str());
        },
        None => {
            assert(p@ =~= mid + Seq::<char>::empty());
        },
    }
    p.append("}");
    RpcCall { method: String::from_str("sessions.preview"), params: Some(p) }
}

/// The params of `sessions.describe`: the flags asked for, and the key.
pub open spec fn describe_params(key: Seq<char>, titles: bool, last: bool) -> Seq<char> {
    "{"@ + (if titles {
        "\"includeDerivedTitles\":true,"@
    } else {
        Seq::empty()
    }) + (if last {
        "\"includeLastMessage\":true,"@
    } else {
        Seq::empty()
    }) + "\"key\":"@ + json_string_literal(key) + "}"@
}

/// `sessions.describe` for a session key (trimmed); a blank key is an error.
pub fn sessions_describe_call(key: &str, include_derived_titles: bool, include_last_message: bool) -> (r:
    Result<RpcCall, String>)
    ensures
        trim(key@).len() == 0 ==> (r matches Err(e) && e@ == "session key required"@),
        trim(key@).len() > 0 ==> (r matches Ok(c) && c.method@ == "sessions.describe"@ && osv(
            c.params,
        ) == Some(describe_params(trim(key@), include_derived_titles, include_last_message))),
{
    let k = trim_string(key);
    if k.as_str().is_empty() {
        return Err(String::from_str("session key required"));
    }
    let mut p = String::from_str("{");
    let ghost s0 = p@;
    if include_derived_titles {
        p.append("\"includeDerivedTitles\":true,");
    } else {
        assert(p@ =~= s0 + Seq::<char>::empty());
    }
    let ghost s1 = p@;
    if include_last_message {
        p.append("\"includeLastMessage\":true,");
    } else {
        assert(p@ =~= s1 + Seq::<char>::empty());
    }
    p.append("\"key\":");
    p.append(json_quote(k.as_str()).as_str());
    p.append("}");
    Ok(RpcCall { method: String::from_str("sessions.describe"), params: Some(p) })
}

/// `voicewake.set` with the wake phrases.
pub fn voicewake_set_call(triggers: &Vec<String>) -> (r: RpcCall)
    ensures
        r.method@ == "voicewake.set"@,
        osv(r.params) == Some("{\"triggers\":"@ + json_string_array(views(triggers@)) + "}"@),
{
    let mut p = String::from_str("{\"triggers\":");
    append_json_string_array(&mut p, triggers);
    p.append("}");
    RpcCall { method: String::from_str("voicewake.set"), params: Some(p) }
}

/// The params of a node invoke result: the invocation id, whether it succeeded, and the
/// payload (JSON text).
pub open spec fn invoke_result_params(id: Seq<char>, ok: bool, payload: Seq<char>) -> Seq<char> {
    "{\"id\":"@ + json_string_literal(id) + ",\"ok\":"@ + (if ok {
        "true"@
    } else {
        "false"@
    }) + ",\"payload\":"@ + payload + "}"@
}

/// `node.invoke.result` for an invocation; `payload` is JSON text.
pub fn invoke_result_call(id: &str, ok: bool, payload: &str) -> (r: RpcCall)
    ensures
        r.method@ == "node.invoke.result"@,
        osv(r.params) == Some(invoke_result_params(id@, ok, payload@)),
{
    let mut p = String::from_str("{\"id\":");
    p.append(json_quote(id).as_str());
    p.append(",\"ok\":");
    if ok {
        p.append("true");
    } else {
        p.append("false");
    }
    p.append(",\"payload\":");
    p.append(payload);
    p.append("}");
    RpcCall { method: String::from_str("node.invoke.result"), params: Some(p) }
}

/// The payload of a failed invocation: `{"error":<message>}`.
pub fn invoke_error_payload(message: &str) -> (r: String)
    ensures
        r@ == string_member_object("error"@, message@),
{
    let mut p = String::from_str("{");
    p.append(json_quote("error").as_str());
    p.append(":");
    p.append(json_quote(message).as_str());
    p.append("}");
    p
}

} // verus!
