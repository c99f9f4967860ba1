use http::HeaderMap;
use http::HeaderValue;
use kube_portforward::connect::{
    build_legacy_spdy_request, build_spdy_tunnel_request, check_legacy_upgrade, check_ws_upgrade,
    eq_ignore_ascii_case, generate_ws_key, legacy_tried, name_is_valid, portforward_uri,
    should_fallback, tunnel_tried, upgrade_answered, upgrade_completed, ws_key, ws_upgrade_request,
    ClusterUrl, FallbackStep, Method, UpgradeFailure, UpgradeResponse, LEGACY_SPDY_UPGRADE,
    LEGACY_STREAM_PROTOCOL, SPDY_SUBPROTOCOL,
};
use kube_portforward::error::Error;
use kube_portforward::recovery::RecoverySignal;
use kube_portforward::subprotocol::Subprotocol;

fn url() -> ClusterUrl {
    ClusterUrl::parse("http://127.0.0.1:6443").expect("a valid URL")
}

fn response(status: u16, headers: &[(&'static str, &[u8])]) -> UpgradeResponse {
    let mut map: HeaderMap<HeaderValue> = HeaderMap::new();
    for (name, value) in headers {
        map.append(*name, HeaderValue::from_bytes(value).expect("a valid value"));
    }
    UpgradeResponse { status, headers: map }
}

fn text_of(error: &Error) -> String {
    match error {
        Error::UpgradeFailed { message, .. } => message.clone(),
        Error::ProtocolViolation { detail, .. } => detail.clone(),
        Error::Configuration(text) | Error::Network(text) | Error::Kube(text) => text.clone(),
        other => format!("{:?}", other),
    }
}

fn failure(error: Error) -> UpgradeFailure {
    let text = text_of(&error);
    UpgradeFailure { error, text }
}

fn attempt(protocol: Subprotocol, answer: UpgradeResponse) -> Result<(), UpgradeFailure> {
    upgrade_answered(protocol, Ok(answer)).map_err(failure)
}

fn status(step: FallbackStep) -> (Error, Option<RecoverySignal>) {
    match step {
        FallbackStep::Failed { error, signal } => (error, signal),
        _ => panic!("expected a failure"),
    }
}

#[test]
fn successful_fallback_reports_no_upgrade_failed() {
    let tunnel = build_spdy_tunnel_request(&url(), "default", "demo-pod").expect("request");
    let legacy = build_legacy_spdy_request(&url(), "default", "demo-pod").expect("request");
    assert_eq!(tunnel.uri, legacy.uri);
    let first = attempt(Subprotocol::Spdy31Tunnel, response(404, &[]));
    let first = match tunnel_tried(first) {
        FallbackStep::TryLegacy(first) => first,
        _ => panic!("expected the raw path to be tried"),
    };
    let second = attempt(
        Subprotocol::LegacySpdy,
        response(
            101,
            &[
                ("upgrade", LEGACY_SPDY_UPGRADE.as_bytes()),
                ("x-stream-protocol-version", LEGACY_STREAM_PROTOCOL.as_bytes()),
            ],
        ),
    );
    // a successful fallback carries no signal
    match legacy_tried(first, second) {
        FallbackStep::Done(protocol) => assert_eq!(protocol, Subprotocol::LegacySpdy),
        _ => panic!("expected the legacy fallback to succeed"),
    }
}

#[test]
fn failed_fallback_reports_terminal_upgrade_failure_once() {
    let first = attempt(Subprotocol::Spdy31Tunnel, response(404, &[]));
    let first = match tunnel_tried(first) {
        FallbackStep::TryLegacy(first) => first,
        _ => panic!("expected the raw path to be tried"),
    };
    let second = attempt(Subprotocol::LegacySpdy, response(502, &[]));
    let (error, signal) = status(legacy_tried(first, second));
    match error {
        Error::UpgradeFailed { status, message } => {
            assert_eq!(status, Some(502));
            assert_eq!(message, "legacy SPDY upgrade: expected 101, got 502");
        }
        _ => panic!("expected a terminal UpgradeFailed"),
    }
    match signal {
        Some(RecoverySignal::UpgradeFailed { status, message }) => {
            assert_eq!(status, Some(502));
            assert_eq!(
                message,
                "websocket upgrade rejected (SPDY-over-WebSocket upgrade: expected 101, got 404); \
                 legacy fallback also failed: legacy SPDY upgrade: expected 101, got 502"
            );
        }
        _ => panic!("unexpected recovery signal"),
    }
}

#[test]
fn the_signal_takes_the_status_of_the_first_refusal_otherwise() {
    let first = failure(upgrade_answered(Subprotocol::Spdy31Tunnel, Ok(response(403, &[]))).unwrap_err());
    let second = Err(failure(upgrade_completed(Err("reset".to_string())).unwrap_err()));
    let (error, signal) = status(legacy_tried(first, second));
    assert!(matches!(error, Error::Network(text) if text == "failed to complete HTTP upgrade: reset"));
    assert!(matches!(signal, Some(RecoverySignal::UpgradeFailed { status: Some(403), .. })));

    let violation = Error::ProtocolViolation { context: "c", detail: "d".to_string() };
    let second = Err(failure(Error::Cancelled));
    let (_, signal) = status(legacy_tried(failure(violation), second));
    assert!(matches!(signal, Some(RecoverySignal::UpgradeFailed { status: None, .. })));
}

#[test]
fn failures_below_http_are_final_and_signalled() {
    let answer = upgrade_answered(Subprotocol::Spdy31Tunnel, Err("refused".to_string()));
    let (error, signal) = status(tunnel_tried(answer.map_err(failure)));
    assert!(matches!(error, Error::Kube(text) if text == "refused"));
    match signal {
        Some(RecoverySignal::UpgradeFailed { status, message }) => {
            assert_eq!(status, None);
            assert_eq!(message, "refused");
        }
        _ => panic!("expected a signal"),
    }
    let (error, signal) = status(tunnel_tried(Err(failure(Error::Configuration("bad".into())))));
    assert!(matches!(error, Error::Configuration(_)));
    assert!(signal.is_none());
    assert!(matches!(tunnel_tried(Ok(())), FallbackStep::Done(Subprotocol::Spdy31Tunnel)));
    assert!(upgrade_completed(Ok(())).is_ok());
}

#[test]
fn only_refusals_trigger_the_raw_path() {
    let refused = Error::UpgradeFailed { status: Some(400), message: String::new() };
    let violated = Error::ProtocolViolation { context: "c", detail: String::new() };
    assert!(should_fallback(&refused));
    assert!(should_fallback(&violated));
    assert!(!should_fallback(&Error::Cancelled));
    assert!(!should_fallback(&Error::Network(String::new())));
    assert!(!should_fallback(&Error::Kube(String::new())));
}

#[test]
fn names_are_checked() {
    assert!(name_is_valid("demo-pod"));
    assert!(name_is_valid("a b"));
    assert!(!name_is_valid(""));
    assert!(!name_is_valid("a/b"));
    assert!(!name_is_valid("a?b"));
    assert!(!name_is_valid("a#b"));
    assert!(!name_is_valid("a\nb"));
    assert!(!name_is_valid("a\u{7f}"));
    assert!(!name_is_valid("p\u{e4}"));
}

#[test]
fn uris_name_the_pod() {
    assert_eq!(
        portforward_uri(&url(), "default", "demo-pod").expect("a URI"),
        "http://127.0.0.1:6443/api/v1/namespaces/default/pods/demo-pod/portforward"
    );
    let path_is_dropped = ClusterUrl::parse("https://host/some/path?x=1").expect("a valid URL");
    assert_eq!(
        portforward_uri(&path_is_dropped, "ns", "p").expect("a URI"),
        "https://host/api/v1/namespaces/ns/pods/p/portforward"
    );
    let error = portforward_uri(&url(), "a/b", "p").unwrap_err();
    assert!(matches!(error, Error::Configuration(text)
        if text == "invalid namespace or pod name: has a forbidden character or non-ASCII"));
    let relative = ClusterUrl::parse("/only/a/path").expect("a valid URL");
    assert!(relative.scheme.is_none() && relative.authority.is_none());
    let error = portforward_uri(&relative, "ns", "p").unwrap_err();
    assert!(matches!(error, Error::Configuration(text) if text == "cluster_url has no scheme"));
    let bare = ClusterUrl { scheme: Some("http".into()), authority: None };
    let error = portforward_uri(&bare, "ns", "p").unwrap_err();
    assert!(matches!(error, Error::Configuration(text) if text == "cluster_url has no authority"));
    let error = portforward_uri(&url(), "ns", "a b").unwrap_err();
    assert!(matches!(error, Error::Configuration(text)
        if text.starts_with("invalid port-forward URI: ") && text.len() > 26));
    assert!(ClusterUrl::parse("http://[bad").is_err());
    let copy = url().clone();
    assert_eq!(copy.scheme.as_deref(), Some("http"));
    assert_eq!(copy.authority.as_deref(), Some("127.0.0.1:6443"));
}

#[test]
fn tunnel_request_asks_for_the_subprotocol() {
    let request = build_spdy_tunnel_request(&url(), "default", "demo-pod").expect("request");
    assert_eq!(request.method, Method::Get);
    assert_eq!(request.headers.len(), 1);
    assert_eq!(request.headers["sec-websocket-protocol"], SPDY_SUBPROTOCOL);
    assert!(request.body.is_empty());
    assert!(build_spdy_tunnel_request(&url(), "", "demo-pod").is_err());
}

#[test]
fn legacy_request_asks_for_the_upgrade() {
    let request = build_legacy_spdy_request(&url(), "default", "demo-pod").expect("request");
    assert_eq!(request.method, Method::Post);
    assert_eq!(request.headers.len(), 3);
    assert_eq!(request.headers["connection"], "Upgrade");
    assert_eq!(request.headers["upgrade"], "SPDY/3.1");
    assert_eq!(request.headers["X-Stream-Protocol-Version"], "portforward.k8s.io");
    assert!(request.body.is_empty());
    assert!(build_legacy_spdy_request(&url(), "default", "").is_err());
}

#[test]
fn handshake_headers_are_added() {
    let request = ws_upgrade_request(&url(), "default", "demo-pod").expect("request");
    assert_eq!(request.headers.len(), 5);
    assert_eq!(request.headers["connection"], "Upgrade");
    assert_eq!(request.headers["upgrade"], "websocket");
    assert_eq!(request.headers["sec-websocket-version"], "13");
    assert_eq!(request.headers["sec-websocket-protocol"], "SPDY/3.1+portforward.k8s.io");
    assert_eq!(request.headers["sec-websocket-key"].len(), 24);
    assert!(ws_upgrade_request(&url(), "default", "a/b").is_err());
}

#[test]
fn keys_are_base64_of_sixteen_bytes() {
    assert_eq!(ws_key(&[0; 16]), "AAAAAAAAAAAAAAAAAAAAAA==");
    let bytes: [u8; 16] = *b"the sample nonce";
    assert_eq!(ws_key(&bytes), "dGhlIHNhbXBsZSBub25jZQ==");
    let key = generate_ws_key();
    assert_eq!(key.len(), 24);
    assert!(key.ends_with("=="));
    assert_ne!(generate_ws_key(), key);
}

#[test]
fn tunnel_answers_are_checked() {
    let good: &[(&str, &[u8])] = &[("sec-websocket-protocol", SPDY_SUBPROTOCOL.as_bytes())];
    assert!(check_ws_upgrade(&response(101, good)).is_ok());
    match check_ws_upgrade(&response(200, good)) {
        Err(Error::UpgradeFailed { status, message }) => {
            assert_eq!(status, Some(200));
            assert_eq!(message, "SPDY-over-WebSocket upgrade: expected 101, got 200");
        }
        _ => panic!("expected a refusal"),
    }
    match check_ws_upgrade(&response(101, &[("sec-websocket-protocol", b"say \"v4\"")])) {
        Err(Error::ProtocolViolation { context, detail }) => {
            assert_eq!(context, "SPDY-over-WebSocket subprotocol negotiation");
            assert_eq!(
                detail,
                "server picked an unexpected subprotocol: \"say \\\"v4\\\"\" \
                 (wanted \"SPDY/3.1+portforward.k8s.io\")"
            );
        }
        _ => panic!("expected a violation"),
    }
    // missing and unreadable headers count as empty
    let empty = "server picked an unexpected subprotocol: \"\" \
                 (wanted \"SPDY/3.1+portforward.k8s.io\")";
    for answer in [response(101, &[]), response(101, &[("sec-websocket-protocol", b"\xff")])] {
        match check_ws_upgrade(&answer) {
            Err(Error::ProtocolViolation { detail, .. }) => assert_eq!(detail, empty),
            _ => panic!("expected a violation"),
        }
    }
    // the first value counts
    let two: &[(&str, &[u8])] = &[
        ("sec-websocket-protocol", SPDY_SUBPROTOCOL.as_bytes()),
        ("sec-websocket-protocol", b"other"),
    ];
    assert!(check_ws_upgrade(&response(101, two)).is_ok());
}

#[test]
fn legacy_answers_are_checked() {
    let version: (&str, &[u8]) = ("x-stream-protocol-version", b"portforward.k8s.io");
    assert!(check_legacy_upgrade(&response(101, &[("upgrade", b"spdy/3.1"), version])).is_ok());
    match check_legacy_upgrade(&response(101, &[("upgrade", b"websocket"), version])) {
        Err(Error::ProtocolViolation { context, detail }) => {
            assert_eq!(context, "legacy SPDY upgrade");
            assert_eq!(
                detail,
                "server sent back an unexpected Upgrade header: \"websocket\" (wanted \"SPDY/3.1\")"
            );
        }
        _ => panic!("expected a violation"),
    }
    match check_legacy_upgrade(&response(101, &[("upgrade", b"SPDY/3.1")])) {
        Err(Error::ProtocolViolation { detail, .. }) => assert_eq!(
            detail,
            "server sent back an unexpected X-Stream-Protocol-Version: \"\" \
             (wanted \"portforward.k8s.io\")"
        ),
        _ => panic!("expected a violation"),
    }
    assert!(check_legacy_upgrade(&response(404, &[])).is_err());
    assert!(eq_ignore_ascii_case("SPDY/3.1", "spdy/3.1"));
    assert!(!eq_ignore_ascii_case("SPDY/3.1", "spdy/3"));
    assert!(!eq_ignore_ascii_case("[", "{"));
}

#[test]
fn protocols_have_short_names() {
    assert_eq!(Subprotocol::Spdy31Tunnel.text(), "SPDY/3.1+ws");
    assert_eq!(Subprotocol::LegacySpdy.text(), "SPDY/3.1");
}
