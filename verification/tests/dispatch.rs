//! Endpoint computation and call addressing.

use milky::dispatch::{auth_header_value, call_target, endpoints_from_ws, endpoints_from_webhook,
    event_address, render_url};
use milky::error::MilkyError;
use milky::types::communication::{WebHookConfig, WebSocketConfig};

#[test]
fn ws_endpoints_map_scheme_and_paths() {
    let cfg = WebSocketConfig::new("ws://127.0.0.1:3000".to_string(), Some("tok".to_string()));
    let ep = endpoints_from_ws(&cfg).expect("must parse");
    assert_eq!(render_url(&ep.api_base), "http://127.0.0.1:3000/api/");
    let ev = ep.event_ws.expect("streaming strategy has an event address");
    assert_eq!(render_url(&ev), "ws://127.0.0.1:3000/event");
    assert_eq!(ep.access_token.as_deref(), Some("tok"));
    assert!(ep.listen.is_none());
}

#[test]
fn wss_maps_to_https() {
    let cfg = WebSocketConfig::new("wss://example.org".to_string(), None);
    let ep = endpoints_from_ws(&cfg).expect("must parse");
    assert_eq!(render_url(&ep.api_base), "https://example.org:443/api/");
}

#[test]
fn unsupported_scheme_is_refused() {
    let cfg = WebSocketConfig::new("http://example.org".to_string(), None);
    match endpoints_from_ws(&cfg) {
        Err(MilkyError::UnsupportedScheme(s)) => assert_eq!(s, "http"),
        other => panic!("expected a scheme refusal, got {:?}", other),
    }
}

#[test]
fn unparseable_address_is_refused() {
    let cfg = WebSocketConfig::new("not a url".to_string(), None);
    assert!(matches!(endpoints_from_ws(&cfg), Err(MilkyError::UrlParse(_))));
}

#[test]
fn webhook_endpoints_keep_the_bind_address() {
    let cfg = WebHookConfig::new(None, 8080, "http://127.0.0.1:3000".to_string(), None);
    assert_eq!(cfg.host, "127.0.0.1");
    let ep = endpoints_from_webhook(&cfg).expect("must parse");
    assert_eq!(render_url(&ep.api_base), "http://127.0.0.1:3000/api/");
    assert_eq!(ep.listen, Some(("127.0.0.1".to_string(), 8080)));
    assert!(ep.event_ws.is_none());
}

#[test]
fn call_target_joins_the_action() {
    let cfg = WebSocketConfig::new("ws://h:1".to_string(), None);
    let ep = endpoints_from_ws(&cfg).expect("must parse");
    let t = call_target(&ep, "get_login_info");
    assert_eq!(render_url(&t), "http://h:1/api/get_login_info");
}

#[test]
fn bearer_header_is_attached_only_with_a_token() {
    let with = endpoints_from_ws(&WebSocketConfig::new(
        "ws://h:1".to_string(),
        Some("SECRET-REDACTED".to_string()),
    ))
    .expect("must parse");
    assert_eq!(auth_header_value(&with).as_deref(), Some("Bearer SECRET-REDACTED"));
    let without =
        endpoints_from_ws(&WebSocketConfig::new("ws://h:1".to_string(), None)).expect("must parse");
    assert!(auth_header_value(&without).is_none());
}

#[test]
fn event_address_attaches_the_encoded_credential() {
    let plain = endpoints_from_ws(&WebSocketConfig::new("ws://h:1".to_string(), None))
        .expect("must parse");
    assert_eq!(event_address(&plain).as_deref(), Some("ws://h:1/event"));
    let with = endpoints_from_ws(&WebSocketConfig::new(
        "ws://h:1".to_string(),
        Some("a b/c\u{1F4A1}~".to_string()),
    ))
    .expect("must parse");
    assert_eq!(
        event_address(&with).as_deref(),
        Some("ws://h:1/event?access_token=a%20b%2Fc%F0%9F%92%A1~")
    );
    let listening = endpoints_from_webhook(&WebHookConfig::new(
        None,
        8080,
        "http://h:1".to_string(),
        Some("t".to_string()),
    ))
    .expect("must parse");
    assert!(event_address(&listening).is_none());
}
