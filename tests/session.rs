use companion::actions::{finish_process_list, safe_verdict};
use companion::channel::CompanionCredentials;
use companion::safety::{RiskLevel, UserRoots};
use companion::session::{
    check_safety, paired_credentials, status_of, trim_trailing_slashes, OutgoingMessage,
    PairRequest,
};

fn roots() -> UserRoots {
    UserRoots { home: "C:\\Users\\John".to_string(), temp: "/tmp".to_string() }
}

#[test]
fn safety_check_prefers_the_command() {
    let v = check_safety("write", Some("C:\\Users\\John\\a".into()), Some("format c:".into()), &roots());
    assert_eq!(v.risk, RiskLevel::Blocked);
    let v = check_safety("write", Some("C:\\Windows\\a".into()), None, &roots());
    assert_eq!(v.risk, RiskLevel::Blocked);
    let v = check_safety("read", None, None, &roots());
    assert!(v.allowed);
    assert_eq!(v.risk, RiskLevel::Safe);
    assert_eq!(v.reason, "No path or command to check");
}

#[test]
fn status_reflects_credentials() {
    let s = status_of(None, "0.1.0".to_string());
    assert!(!s.connected);
    assert!(s.safety_active);
    assert_eq!(s.gateway_url, None);
    let c = CompanionCredentials {
        gateway_url: "https://gw".into(),
        companion_id: "c1".into(),
        role: "user".into(),
        auth_token: Some("t".into()),
    };
    let s = status_of(Some(c), "0.1.0".to_string());
    assert!(s.connected);
    assert_eq!(s.gateway_url.as_deref(), Some("https://gw"));
    assert_eq!(s.companion_id.as_deref(), Some("c1"));
    assert_eq!(s.auth_token.as_deref(), Some("t"));
    assert_eq!(s.version, "0.1.0");
}

#[test]
fn pairing_credentials_defaults() {
    let req = PairRequest { gateway_url: "https://gw.example//".into(), pairing_code: "123456".into() };
    let c = paired_credentials(&req.gateway_url, None, None, None);
    assert_eq!(c.gateway_url, "https://gw.example");
    assert_eq!(c.companion_id, "unknown");
    assert_eq!(c.role, "user");
    assert_eq!(c.auth_token, None);
    let c = paired_credentials("http://h", Some("id".into()), Some("admin".into()), Some("tok".into()));
    assert_eq!((c.companion_id.as_str(), c.role.as_str()), ("id", "admin"));
    assert_eq!(trim_trailing_slashes("///"), "");
    assert_eq!(trim_trailing_slashes("a/b"), "a/b");
}

#[test]
fn chat_frames() {
    let m = OutgoingMessage::chat("hi \"there\"".to_string(), None);
    assert_eq!(
        m.encode(),
        "{\"type\":\"chat\",\"content\":\"hi \\\"there\\\"\",\"session_id\":null,\"channel\":\"companion\"}"
    );
    let m = OutgoingMessage::chat("x".to_string(), Some("s1".to_string()));
    assert!(m.encode().contains("\"session_id\":\"s1\""));
}

#[test]
fn process_list_keeps_first_lines() {
    let lines: Vec<String> = (0..60).map(|i| format!("p{}", i)).collect();
    let r = finish_process_list(safe_verdict(), Ok(lines));
    assert!(r.success);
    let expected: Vec<String> = (0..50).map(|i| format!("p{}", i)).collect();
    assert_eq!(r.output, format!("Top 50 processes:\n{}", expected.join("\n")));
    let r = finish_process_list(safe_verdict(), Ok(vec!["a".into()]));
    assert_eq!(r.output, "Top 50 processes:\na");
    let r = finish_process_list(safe_verdict(), Err("x".into()));
    assert_eq!(r.output, "Failed: x");
}

