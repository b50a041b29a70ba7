use companion::actions::{execute, Dispatch};
use companion::channel::{
    answer_request, decode_frame, endpoint_url, keepalive_frame, on_event, pong_frame,
    request_from, result_frame, ChannelCommand, ChannelEvent, CompanionCredentials,
    ConnectionState, InboundFrame, LoopGuard, RequestParams,
};
use companion::safety::UserRoots;

fn roots() -> UserRoots {
    UserRoots { home: "C:\\Users\\John".to_string(), temp: "/tmp".to_string() }
}

fn creds(url: &str, token: Option<&str>) -> CompanionCredentials {
    CompanionCredentials {
        gateway_url: url.to_string(),
        companion_id: "c-1".to_string(),
        role: "user".to_string(),
        auth_token: token.map(|t| t.to_string()),
    }
}

#[test]
fn endpoint_swaps_scheme_and_adds_identity() {
    assert_eq!(endpoint_url(&creds("https://gw.example", None)), "wss://gw.example/ws?companionId=c-1");
    assert_eq!(
        endpoint_url(&creds("http://10.0.0.2:8080", Some("tok"))),
        "ws://10.0.0.2:8080/ws?companionId=c-1&token=tok"
    );
    assert_eq!(endpoint_url(&creds("gw", None)), "gw/ws?companionId=c-1");
}

#[test]
fn second_start_is_a_no_op() {
    let mut g = LoopGuard::new();
    assert!(!g.is_active());
    assert!(g.try_start());
    assert!(!g.try_start());
    assert!(g.is_active());
    g.finish();
    assert!(!g.is_active());
    assert!(g.try_start());
}

#[test]
fn disconnect_mid_session_recovers() {
    let (s, cmd) = on_event(&ConnectionState::Connected, &ChannelEvent::TransportLost);
    assert_eq!(s, ConnectionState::Reconnecting);
    assert_eq!(cmd, ChannelCommand::CloseAndWait(5));
    let (s, cmd) = on_event(&s, &ChannelEvent::WaitElapsed);
    assert_eq!(s, ConnectionState::Connecting);
    assert_eq!(cmd, ChannelCommand::LoadCredentials);
    let (s, cmd) = on_event(&s, &ChannelEvent::CredentialsLoaded(Some(creds("https://gw", None))));
    assert_eq!(s, ConnectionState::Connecting);
    assert_eq!(cmd, ChannelCommand::Connect("wss://gw/ws?companionId=c-1".to_string()));
    let (s, cmd) = on_event(&s, &ChannelEvent::Connected);
    assert_eq!(s, ConnectionState::Connected);
    assert_eq!(cmd, ChannelCommand::Continue);
    let (s, cmd) = on_event(&s, &ChannelEvent::KeepaliveDue);
    assert_eq!(s, ConnectionState::Connected);
    assert_eq!(cmd, ChannelCommand::SendKeepalive);
    assert_eq!(keepalive_frame(), "{\"type\":\"health.ping\",\"id\":\"keepalive\"}");
}

#[test]
fn other_transitions() {
    let (s, cmd) = on_event(&ConnectionState::Disconnected, &ChannelEvent::Started);
    assert_eq!((s, cmd), (ConnectionState::Disconnected, ChannelCommand::Wait(2)));
    let (s, cmd) = on_event(&ConnectionState::Connecting, &ChannelEvent::CredentialsLoaded(None));
    assert_eq!((s, cmd), (ConnectionState::Disconnected, ChannelCommand::Wait(10)));
    let (s, cmd) = on_event(&ConnectionState::Connecting, &ChannelEvent::ConnectFailed);
    assert_eq!((s, cmd), (ConnectionState::Reconnecting, ChannelCommand::Wait(5)));
    let (s, cmd) = on_event(&ConnectionState::Authenticated, &ChannelEvent::ReconnectRequested);
    assert_eq!((s, cmd), (ConnectionState::Reconnecting, ChannelCommand::CloseAndWait(5)));
    let (s, cmd) = on_event(&ConnectionState::Reconnecting, &ChannelEvent::KeepaliveDue);
    assert_eq!((s, cmd), (ConnectionState::Reconnecting, ChannelCommand::Continue));
    assert!(ConnectionState::Authenticated.is_connected());
    assert!(!ConnectionState::Error("x".to_string()).is_connected());
}

#[test]
fn frames_decode_by_type() {
    assert!(matches!(decode_frame("not json"), InboundFrame::Malformed));
    assert!(matches!(decode_frame("{\"type\":\"health.pong\"}"), InboundFrame::Pong));
    match decode_frame("{\"type\":\"chat\",\"content\":\"hi\"}") {
        InboundFrame::Other(t) => assert_eq!(t, "chat"),
        other => panic!("{:?}", other),
    }
    match decode_frame("{\"type\":\"action_request\",\"requestId\":\"r1\",\"action\":\"shell\",\"params\":{\"command\":\"dir C:\\\\\"}}") {
        InboundFrame::ActionRequest { request_id, action, params } => {
            assert_eq!(request_id, "r1");
            assert_eq!(action, "shell");
            assert_eq!(params.command.as_deref(), Some("dir C:\\"));
            assert_eq!(params.path, None);
            assert!(!params.confirmed);
        }
        other => panic!("{:?}", other),
    }
    match decode_frame("{\"type\":\"action_request\"}") {
        InboundFrame::ActionRequest { request_id, action, .. } => {
            assert_eq!(request_id, "");
            assert_eq!(action, "");
        }
        other => panic!("{:?}", other),
    }
    assert!(matches!(decode_frame("[1,2]"), InboundFrame::Other(t) if t.is_empty()));
}

#[test]
fn unparseable_params_still_answered() {
    let frame = "{\"type\":\"action_request\",\"requestId\":\"r9\",\"action\":\"read_file\",\"params\":\"garbage\"}";
    let (id, action, p) = match decode_frame(frame) {
        InboundFrame::ActionRequest { request_id, action, params } => (request_id, action, params),
        other => panic!("{:?}", other),
    };
    assert_eq!(p.path, None);
    let result = match answer_request(action, p, &roots()) {
        Dispatch::Done(r) => r,
        other => panic!("{:?}", other),
    };
    assert!(!result.success);
    let f = result_frame(&id, &result);
    assert_eq!(
        f,
        "{\"type\":\"action_result\",\"requestId\":\"r9\",\"success\":false,\"output\":\"path is required\"}"
    );
}

#[test]
fn gateway_requests_carry_their_confirmation() {
    let unconfirmed = "{\"type\":\"action_request\",\"requestId\":\"a\",\"action\":\"shell\",\"params\":{\"command\":\"del x\"}}";
    let p = RequestParams::from_frame(unconfirmed);
    assert!(!p.confirmed);
    let req = request_from("shell".to_string(), p);
    assert!(!req.confirmed);
    match execute(&req, &roots()) {
        Dispatch::Done(r) => {
            assert!(!r.success);
            assert!(r.output.starts_with("CONFIRMATION REQUIRED: "));
        }
        other => panic!("{:?}", other),
    }
    let confirmed = "{\"type\":\"action_request\",\"requestId\":\"a\",\"action\":\"shell\",\"params\":{\"command\":\"del x\",\"confirmed\":true}}";
    let p = RequestParams::from_frame(confirmed);
    assert!(p.confirmed);
    assert!(matches!(execute(&request_from("shell".to_string(), p), &roots()), Dispatch::Perform(..)));
    let odd = "{\"params\":{\"confirmed\":\"yes\"}}";
    assert!(!RequestParams::from_frame(odd).confirmed);
    let mut p = RequestParams::empty();
    p.command = Some("del x".to_string());
    assert!(!request_from("shell".to_string(), p).confirmed);
}

#[test]
fn result_frames_escape_text() {
    let mut p = RequestParams::empty();
    p.path = Some("C:\\Windows\\x".to_string());
    let r = match answer_request("delete_file".to_string(), p, &roots()) {
        Dispatch::Done(r) => r,
        other => panic!("{:?}", other),
    };
    let f = result_frame("id\"1", &r);
    assert!(f.starts_with("{\"type\":\"action_result\",\"requestId\":\"id\\\"1\",\"success\":false,\"output\":\"BLOCKED: "));
    assert_eq!(pong_frame(), "{\"type\":\"pong\"}");
}

#[test]
fn json_escapes_match_the_stated_table() {
    let mut p = RequestParams::empty();
    p.path = Some("x".to_string());
    let r = match answer_request("file_exists".to_string(), p, &roots()) {
        Dispatch::Perform(..) => companion::actions::file_exists("\u{1}\u{1f}\t\u{8}\u{c}\n\r\"\\/é\u{7f}", true),
        other => panic!("{:?}", other),
    };
    let f = result_frame("k", &r);
    assert_eq!(
        f,
        "{\"type\":\"action_result\",\"requestId\":\"k\",\"success\":true,\"output\":\"\\u0001\\u001f\\t\\b\\f\\n\\r\\\"\\\\/é\u{7f}: exists\"}"
    );
}
