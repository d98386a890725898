use openclaw_linux::device_auth::{
    build_device_auth_payload_v3, extract_public_key_raw, extract_signing_key, fingerprint_pem,
    normalize_metadata, public_key_raw_base64_url, sign_payload,
};
use openclaw_linux::device_identity::{
    fingerprint_public_key_raw, generate_identity, pem_encode, private_key_pem_from_raw,
    public_key_pem_from_raw,
};

#[test]
fn v3_payload_format_matches_gateway_client() {
    let payload = build_device_auth_payload_v3(
        "device123",
        "openclaw-linux",
        "node",
        "node",
        &[],
        1_700_000_000_000,
        Some("tok"),
        "nonce-xyz",
        Some("linux"),
        None,
    );
    assert_eq!(
        payload,
        "v3|device123|openclaw-linux|node|node||1700000000000|tok|nonce-xyz|linux|"
    );
}

#[test]
fn v3_payload_joins_scopes_and_normalizes_platform() {
    let scopes = vec!["operator.read".to_string(), "operator.write".to_string()];
    let payload = build_device_auth_payload_v3(
        "d", "c", "ui", "operator", &scopes, 0, None, "n", Some("  Linux "), Some("Desk"),
    );
    assert_eq!(payload, "v3|d|c|ui|operator|operator.read,operator.write|0||n|linux|desk");
    assert_eq!(normalize_metadata("  ÄBC "), "äbc");
}

#[test]
fn generates_valid_pem_identity() {
    let id = generate_identity();
    assert_eq!(id.device_id.len(), 64);
    assert!(id.public_key_pem.contains("PUBLIC KEY"));
    assert!(id.private_key_pem.contains("PRIVATE KEY"));
}

#[test]
fn identity_keys_round_trip_through_pem() {
    let id = generate_identity();
    assert_eq!(fingerprint_pem(&id.public_key_pem), Some(id.device_id.clone()));
    let raw = extract_public_key_raw(&id.public_key_pem).unwrap();
    assert_eq!(raw.len(), 32);
    assert_eq!(public_key_pem_from_raw(&raw), id.public_key_pem);
    let secret = extract_signing_key(&id.private_key_pem).unwrap();
    assert_eq!(private_key_pem_from_raw(&secret), id.private_key_pem);
    assert!(public_key_raw_base64_url(&id.public_key_pem).is_some());
}

#[test]
fn known_key_pem_and_fingerprint() {
    let raw = [7u8; 32];
    let pem = public_key_pem_from_raw(&raw);
    assert_eq!(
        pem,
        "-----BEGIN PUBLIC KEY-----\nMCowBQYDK2VwAyEABwcHBwcHBwcHBwcHBwcHBwcHBwcHBwcHBwcHBwcHBwc=\n-----END PUBLIC KEY-----\n"
    );
    assert_eq!(extract_public_key_raw(&pem), Some(raw.to_vec()));
    assert_eq!(
        public_key_raw_base64_url(&pem),
        Some("BwcHBwcHBwcHBwcHBwcHBwcHBwcHBwcHBwcHBwcHBwc".to_string())
    );
    assert_eq!(fingerprint_pem(&pem), Some(fingerprint_public_key_raw(&raw)));
    assert_eq!(extract_public_key_raw("-----BEGIN PUBLIC KEY-----\nnot base64\n-----END PUBLIC KEY-----\n"), None);
}

#[test]
fn pem_wraps_long_bodies_at_64_columns() {
    let pem = pem_encode("TEST", &[0u8; 60]);
    let lines: Vec<&str> = pem.lines().collect();
    assert_eq!(lines[0], "-----BEGIN TEST-----");
    assert_eq!(lines[1].len(), 64);
    assert_eq!(lines[2].len(), 16);
    assert_eq!(lines[3], "-----END TEST-----");
}

#[test]
fn signatures_verify_against_the_public_key() {
    let secret = [42u8; 32];
    let private_pem = private_key_pem_from_raw(&secret);
    let sig = sign_payload(&private_pem, "hello").unwrap();
    let again = sign_payload(&private_pem, "hello").unwrap();
    assert_eq!(sig, again);
    assert_ne!(sig, sign_payload(&private_pem, "hello!").unwrap());
    assert_eq!(sign_payload("garbage", "hello"), None);
}

#[test]
fn signature_with_generated_key_is_86_chars_and_stable() {
    let id = openclaw_linux::device_identity::generate_identity();
    let s1 = openclaw_linux::device_auth::sign_payload(&id.private_key_pem, "payload").unwrap();
    let s2 = openclaw_linux::device_auth::sign_payload(&id.private_key_pem, "payload").unwrap();
    assert_eq!(s1.len(), 86);
    assert_eq!(s1, s2);
    assert_eq!(
        openclaw_linux::device_auth::fingerprint_pem(&id.public_key_pem),
        Some(id.device_id.clone())
    );
    assert!(id.device_id.chars().all(|c| c.is_ascii_digit() || ('a'..='f').contains(&c)));
}
