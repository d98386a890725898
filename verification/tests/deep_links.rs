use openclaw_linux::deep_links::{parse_deep_link, parse_u16_text, DeepLink};

#[test]
fn parses_agent_link() {
    let link = parse_deep_link("openclaw://agent?message=hello").unwrap();
    assert!(matches!(link, DeepLink::Agent { message, .. } if message == "hello"));
}

#[test]
fn parses_dashboard() {
    assert!(matches!(
        parse_deep_link("openclaw://dashboard"),
        Some(DeepLink::Dashboard)
    ));
}

#[test]
fn parses_webchat() {
    assert!(matches!(
        parse_deep_link("openclaw://webchat"),
        Some(DeepLink::WebChat { session: None })
    ));
    let link = parse_deep_link("openclaw://webchat?session=agent:main:main").unwrap();
    assert!(matches!(
        link,
        DeepLink::WebChat {
            session: Some(s),
        } if s == "agent:main:main"
    ));
}

#[test]
fn parses_settings() {
    assert!(matches!(
        parse_deep_link("openclaw://settings"),
        Some(DeepLink::Settings)
    ));
}

#[test]
fn parses_canvas_session() {
    let link = parse_deep_link("openclaw://canvas?session=desk").unwrap();
    assert!(matches!(
        link,
        DeepLink::Canvas {
            session: Some(s),
        } if s == "desk"
    ));
}

#[test]
fn parses_agent_session() {
    let link = parse_deep_link("openclaw://agent?message=hi&session=main").unwrap();
    assert!(matches!(
        link,
        DeepLink::Agent {
            message,
            session: Some(s),
            ..
        } if message == "hi" && s == "main"
    ));
}

#[test]
fn parses_gateway_host_port() {
    let link = parse_deep_link("openclaw://gateway?host=192.168.1.5&port=18789").unwrap();
    assert!(matches!(
        link,
        DeepLink::Gateway {
            host: Some(h),
            port: Some(18789),
        } if h == "192.168.1.5"
    ));
}

#[test]
fn rejects_other_schemes_and_hosts() {
    assert_eq!(parse_deep_link("https://agent?message=hi"), None);
    assert_eq!(parse_deep_link("openclaw://unknown"), None);
    assert_eq!(parse_deep_link("openclaw://agent"), None);
    assert_eq!(parse_deep_link("not a url"), None);
}

#[test]
fn agent_link_decodes_query_and_deliver_flag() {
    let link = parse_deep_link("openclaw://agent?message=hello+world%21&deliver=true&thinking=low").unwrap();
    assert_eq!(
        link,
        DeepLink::Agent {
            message: "hello world!".into(),
            session: None,
            thinking: Some("low".into()),
            deliver: Some(true),
        }
    );
    let link = parse_deep_link("openclaw://agent?message=x&deliver=yes").unwrap();
    assert!(matches!(link, DeepLink::Agent { deliver: None, .. }));
}

#[test]
fn chat_alias_accepts_session_key() {
    assert_eq!(
        parse_deep_link("openclaw://chat?sessionKey=abc"),
        Some(DeepLink::WebChat { session: Some("abc".into()) })
    );
}

#[test]
fn gateway_port_must_fit_u16() {
    assert_eq!(
        parse_deep_link("openclaw://gateway?port=70000"),
        Some(DeepLink::Gateway { host: None, port: None })
    );
    assert_eq!(parse_u16_text("+80"), Some(80));
    assert_eq!(parse_u16_text("65535"), Some(65535));
    assert_eq!(parse_u16_text("65536"), None);
    assert_eq!(parse_u16_text("+"), None);
    assert_eq!(parse_u16_text("-1"), None);
    assert_eq!(parse_u16_text(""), None);
    assert_eq!(parse_u16_text("007"), Some(7));
}
