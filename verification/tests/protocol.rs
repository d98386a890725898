use openclaw_linux::device_auth::{ConnectDevice, DeviceSigningMaterial};
use openclaw_linux::gateway_config::GatewayConnectionSettings;
use openclaw_linux::protocol::{
    challenge_nonce, connect_request_json, handshake_device, hello_outcome, node_connect_params,
    operator_connect_params, rpc_failure_text, user_agent, GatewayRole, CLIENT_ID_LINUX,
    MIN_CLIENT_PROTOCOL_VERSION, PROTOCOL_VERSION,
};

fn material() -> DeviceSigningMaterial {
    DeviceSigningMaterial {
        device_id: "dev".into(),
        public_key_pem: "not a pem".into(),
        private_key_pem: "not a pem".into(),
    }
}

#[test]
fn protocol_constants() {
    assert_eq!(PROTOCOL_VERSION, 4);
    assert_eq!(MIN_CLIENT_PROTOCOL_VERSION, 4);
    assert_eq!(CLIENT_ID_LINUX, "openclaw-linux");
    assert_eq!(GatewayRole::Operator.name(), "operator");
    assert_eq!(GatewayRole::Node.name(), "node");
    assert_eq!(user_agent("1.0.0"), "openclaw-linux/1.0.0");
}

#[test]
fn operator_connect_request_json() {
    let mut settings = GatewayConnectionSettings::default();
    settings.token = Some("tok".into());
    let params = operator_connect_params(&settings, material(), "1.2.3");
    assert_eq!(params.mode, "ui");
    assert_eq!(params.scopes.len(), 4);
    let json = connect_request_json(&params, None);
    assert_eq!(
        json,
        "{\"auth\":{\"token\":\"tok\"},\"caps\":[],\"client\":{\"id\":\"openclaw-linux\",\"mode\":\"ui\",\"platform\":\"linux\",\"version\":\"1.2.3\"},\"commands\":[],\"locale\":\"en-US\",\"maxProtocol\":4,\"minProtocol\":4,\"permissions\":{},\"role\":\"operator\",\"scopes\":[\"operator.read\",\"operator.write\",\"operator.admin\",\"operator.pairing\"],\"userAgent\":\"openclaw-linux/1.2.3\"}"
    );
    let parsed: serde_json::Value = serde_json::from_str(&json).unwrap();
    assert_eq!(parsed["client"]["id"], "openclaw-linux");
}

#[test]
fn node_connect_request_lists_advertisement_and_device() {
    let mut settings = GatewayConnectionSettings::default();
    settings.camera_enabled = false;
    settings.password = Some("p\"w".into());
    let params = node_connect_params(&settings, material(), "0.1.0");
    assert_eq!(params.mode, "node");
    assert!(params.scopes.is_empty());
    assert_eq!(
        params.permissions,
        vec![("camera.capture".to_string(), false), ("screen.record".to_string(), true)]
    );
    let device = ConnectDevice {
        id: "dev".into(),
        public_key: "pk".into(),
        signature: "sig".into(),
        signed_at: 1700000000000,
        nonce: "n1".into(),
    };
    let json = connect_request_json(&params, Some(&device));
    let parsed: serde_json::Value = serde_json::from_str(&json).unwrap();
    assert_eq!(parsed["auth"]["password"], "p\"w");
    assert_eq!(parsed["device"]["signedAt"], 1700000000000u64);
    assert_eq!(parsed["permissions"]["screen.record"], true);
    assert_eq!(parsed["role"], "node");
    assert!(json.contains(",\"device\":{\"id\":\"dev\",\"nonce\":\"n1\",\"publicKey\":\"pk\",\"signature\":\"sig\",\"signedAt\":1700000000000},\"locale\""));
}

#[test]
fn handshake_device_needs_nonce_and_valid_keys() {
    let settings = GatewayConnectionSettings::default();
    let params = operator_connect_params(&settings, material(), "1");
    assert!(handshake_device(&params, None).is_none());
    assert!(handshake_device(&params, Some("nonce")).is_none());
}

#[test]
fn hello_reply_outcomes() {
    assert_eq!(hello_outcome(Some("hello-ok"), Some(" 2.1 "), "{}"), Ok(Some("2.1".to_string())));
    assert_eq!(hello_outcome(Some("hello-ok"), Some("  "), "{}"), Ok(None));
    assert_eq!(
        hello_outcome(Some("nope"), None, "{\"type\":\"nope\"}"),
        Err("unexpected hello: {\"type\":\"nope\"}".to_string())
    );
    assert!(hello_outcome(None, Some("1"), "x").is_err());
}

#[test]
fn challenge_and_failure_text() {
    assert_eq!(challenge_nonce("connect.challenge", Some("abc")), Some("abc".to_string()));
    assert_eq!(challenge_nonce("tick", Some("abc")), None);
    assert_eq!(rpc_failure_text("health", Some("denied")), "request health failed: denied");
    assert_eq!(rpc_failure_text("health", None), "request health failed: unknown error");
}

#[test]
fn handshake_device_signs_role_token_and_platform() {
    let id = openclaw_linux::device_identity::generate_identity();
    let material = DeviceSigningMaterial {
        device_id: id.device_id.clone(),
        public_key_pem: id.public_key_pem.clone(),
        private_key_pem: id.private_key_pem.clone(),
    };
    let mut settings = GatewayConnectionSettings::default();
    settings.token = Some("tok".into());
    let params = node_connect_params(&settings, material, "1");
    let d = openclaw_linux::protocol::handshake_device_at(&params, Some("n1"), 1_700_000_000_000).unwrap();
    let payload = openclaw_linux::device_auth::build_device_auth_payload_v3(
        &id.device_id,
        CLIENT_ID_LINUX,
        &params.mode,
        "node",
        &params.scopes,
        1_700_000_000_000,
        Some("tok"),
        "n1",
        Some("linux"),
        None,
    );
    assert_eq!(d.signature, openclaw_linux::device_auth::sign_payload(&id.private_key_pem, &payload).unwrap());
    assert_eq!(d.signed_at, 1_700_000_000_000);
    assert_eq!(d.nonce, "n1");
    assert_eq!(d.id, id.device_id);
    assert!(openclaw_linux::protocol::handshake_device_at(&params, None, 1).is_none());
    let now = handshake_device(&params, Some("n2")).unwrap();
    assert_eq!(now.nonce, "n2");
}

#[test]
fn permission_keys_must_ascend() {
    let settings = GatewayConnectionSettings::default();
    let mut params = node_connect_params(&settings, material(), "1");
    assert!(params.permissions_in_order());
    params.permissions.reverse();
    assert!(!params.permissions_in_order());
    params.permissions.push(params.permissions[0].clone());
    assert!(!params.permissions_in_order());
}
