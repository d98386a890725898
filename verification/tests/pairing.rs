use openclaw_linux::json::JsonField;
use openclaw_linux::pairing::{
    pairing_display_name, pairing_notification_body, pending_notifications, PairingRequestInfo,
    PairingTracker,
};

fn req(id: &str, name: JsonField) -> PairingRequestInfo {
    PairingRequestInfo {
        request_id: if id.is_empty() { JsonField::Absent } else { JsonField::Text(id.into()) },
        display_name: name,
        device_id: JsonField::Text("dev-1".into()),
        node_id: JsonField::Absent,
    }
}

#[test]
fn each_request_is_announced_once() {
    let mut t = PairingTracker::new();
    let list = vec![
        req("r1", JsonField::Text("Laptop".into())),
        req("r1", JsonField::Text("Laptop".into())),
        req("", JsonField::Absent),
        req("r2", JsonField::Absent),
    ];
    let out = pending_notifications(&mut t, "device", &list);
    assert_eq!(out.len(), 2);
    assert_eq!(out[0], (0, "device \"Laptop\" — open Settings to approve".to_string()));
    assert_eq!(out[1], (3, "device \"dev-1\" — open Settings to approve".to_string()));
    let again = pending_notifications(&mut t, "device", &list);
    assert!(again.is_empty());
    assert!(t.mark_announced("r3"));
    assert!(!t.mark_announced("r3"));
    assert!(!t.mark_announced(""));
}

#[test]
fn names_fall_back() {
    let mut r = req("x", JsonField::Other);
    assert_eq!(pairing_display_name(&r), "unknown");
    r.display_name = JsonField::Absent;
    r.device_id = JsonField::Absent;
    r.node_id = JsonField::Text("node-9".into());
    assert_eq!(pairing_display_name(&r), "node-9");
    r.node_id = JsonField::Absent;
    assert_eq!(pairing_display_name(&r), "unknown");
    assert_eq!(pairing_notification_body("node", "n"), "node \"n\" — open Settings to approve");
}
