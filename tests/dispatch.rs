use companion::actions::{
    execute, file_exists, file_info, finish_copy, finish_create_dir, finish_delete, finish_list,
    finish_move, finish_open_app, finish_open_url, finish_read, finish_shell, finish_text,
    finish_write, safe_verdict, Action, ActionRequest, ActionResult, DirEntry, Dispatch,
    FileFacts, Operation,
};
use companion::output::{decimal_string, format_size};
use companion::safety::{RiskLevel, SafetyVerdict, UserRoots};

fn roots() -> UserRoots {
    UserRoots { home: "C:\\Users\\John".to_string(), temp: "/tmp".to_string() }
}

fn request(action: &str) -> ActionRequest {
    ActionRequest {
        action: action.to_string(),
        path: None,
        command: None,
        content: None,
        process_name: None,
        app_name: None,
        cwd: None,
        confirmed: false,
    }
}

fn done(d: Dispatch) -> ActionResult {
    match d {
        Dispatch::Done(r) => r,
        Dispatch::Perform(op, _) => panic!("unexpected operation {:?}", op),
    }
}

#[test]
fn delete_system_file_is_blocked_without_side_effect() {
    let mut req = request("delete_file");
    req.path = Some("C:\\Windows\\System32\\cmd.exe".to_string());
    for confirmed in [false, true] {
        req.confirmed = confirmed;
        let r = done(execute(&req, &roots()));
        assert!(!r.success);
        assert_eq!(r.safety.risk, RiskLevel::Blocked);
        assert_eq!(r.output, r.safety.reason);
    }
}

#[test]
fn write_under_home_runs_without_confirmation() {
    let target = "C:\\Users\\John\\Documents\\note.txt".to_string();
    let mut req = request("write_file");
    req.path = Some(target.clone());
    req.content = Some("hello".to_string());
    match execute(&req, &roots()) {
        Dispatch::Perform(Operation::WriteFile { path, content }, verdict) => {
            assert_eq!(path, target);
            assert_eq!(content, "hello");
            assert!(verdict.allowed);
            assert_eq!(verdict.risk, RiskLevel::Medium);
            assert!(!verdict.requires_confirmation);
            let r = finish_write(verdict, &path, &content, Ok(()));
            assert!(r.success);
            assert_eq!(r.output, format!("Written 5 bytes to {}", target));
        }
        other => panic!("unexpected {:?}", other),
    }
}

#[test]
fn kill_svchost_is_blocked() {
    let mut req = request("kill_process");
    req.process_name = Some("svchost.exe".to_string());
    req.confirmed = true;
    let r = done(execute(&req, &roots()));
    assert!(!r.success);
    assert_eq!(r.safety.risk, RiskLevel::Blocked);
}

#[test]
fn confirmation_round_trip() {
    let mut req = request("shell");
    req.command = Some("del old.txt".to_string());
    let first = done(execute(&req, &roots()));
    let second = done(execute(&req, &roots()));
    assert_eq!(first.safety.reason, second.safety.reason);
    for r in [&first, &second] {
        assert!(!r.success);
        assert!(r.output.starts_with("CONFIRMATION REQUIRED: "));
        assert!(r.safety.requires_confirmation);
        assert_eq!(r.safety.risk, RiskLevel::High);
    }
    assert_eq!(first.output, second.output);
    assert_eq!(
        first.output,
        "CONFIRMATION REQUIRED: High-risk command 'del' requires user confirmation. Reply 'yes' to proceed."
    );
    req.confirmed = true;
    match execute(&req, &roots()) {
        Dispatch::Perform(Operation::Shell { command, cwd }, v) => {
            assert_eq!(command, "del old.txt");
            assert_eq!(cwd, None);
            assert!(v.allowed);
        }
        other => panic!("unexpected {:?}", other),
    }
}

#[test]
fn unknown_action_is_default_deny() {
    let r = done(execute(&request("format_everything"), &roots()));
    assert!(!r.success);
    assert_eq!(r.output, "Unknown action: format_everything");
    assert_eq!(r.safety.reason, "Unknown action");
    assert_eq!(r.safety.risk, RiskLevel::Blocked);
    assert!(!r.safety.allowed);
}

#[test]
fn missing_fields_are_input_errors() {
    let cases = [
        ("read_file", "path is required"),
        ("write_file", "path is required"),
        ("shell", "command is required"),
        ("open_app", "app_name is required"),
        ("open_url", "path (URL) is required"),
        ("kill_process", "process_name is required"),
        ("move_file", "path (source) is required"),
    ];
    for (action, message) in cases {
        let r = done(execute(&request(action), &roots()));
        assert!(!r.success);
        assert_eq!(r.output, message);
        assert!(r.safety.allowed);
        assert_eq!(r.safety.risk, RiskLevel::Safe);
        assert!(r.safety.reason.is_empty());
    }
    let mut req = request("copy_file");
    req.path = Some("D:\\a".to_string());
    let r = done(execute(&req, &roots()));
    assert_eq!(r.output, "content (destination) is required");
}

#[test]
fn list_dir_defaults_to_current_directory() {
    match execute(&request("list_dir"), &roots()) {
        Dispatch::Perform(Operation::ListDir { path }, v) => {
            assert_eq!(path, ".");
            assert_eq!(v.risk, RiskLevel::Safe);
        }
        other => panic!("unexpected {:?}", other),
    }
}

#[test]
fn move_is_checked_at_both_ends() {
    let mut req = request("move_file");
    req.path = Some("D:\\a.txt".to_string());
    req.content = Some("C:\\Windows\\a.txt".to_string());
    let r = done(execute(&req, &roots()));
    assert_eq!(r.safety.risk, RiskLevel::Blocked);
    assert!(r.output.contains("C:\\Windows\\a.txt"));
    req.content = Some("E:\\b.txt".to_string());
    match execute(&req, &roots()) {
        Dispatch::Perform(Operation::MoveFile { from, to }, v) => {
            assert_eq!(from, "D:\\a.txt");
            assert_eq!(to, "E:\\b.txt");
            assert_eq!(v.risk, RiskLevel::Medium);
        }
        other => panic!("unexpected {:?}", other),
    }
}

#[test]
fn fixed_verdicts_for_apps_and_urls() {
    let mut req = request("open_app");
    req.app_name = Some("notepad".to_string());
    match execute(&req, &roots()) {
        Dispatch::Perform(Operation::OpenApp { app }, v) => {
            assert_eq!(app, "notepad");
            assert_eq!(v.risk, RiskLevel::Medium);
            assert_eq!(v.reason, "Opening application: notepad");
        }
        other => panic!("unexpected {:?}", other),
    }
    let mut req = request("open_url");
    req.path = Some("https://example.com".to_string());
    match execute(&req, &roots()) {
        Dispatch::Perform(Operation::OpenUrl { url }, v) => {
            assert_eq!(url, "https://example.com");
            assert_eq!(v.risk, RiskLevel::Low);
        }
        other => panic!("unexpected {:?}", other),
    }
    for a in ["list_processes", "system_info", "disk_usage"] {
        match execute(&request(a), &roots()) {
            Dispatch::Perform(_, v) => assert_eq!(v.risk, RiskLevel::Safe),
            other => panic!("unexpected {:?}", other),
        }
    }
}

#[test]
fn action_names_parse() {
    assert_eq!(Action::parse("read_file"), Some(Action::ReadFile));
    assert_eq!(Action::parse("shell"), Some(Action::Shell));
    assert_eq!(Action::parse("disk_usage"), Some(Action::DiskUsage));
    assert_eq!(Action::parse("Shell"), None);
    assert_eq!(Action::parse(""), None);
}

fn medium() -> SafetyVerdict {
    SafetyVerdict {
        allowed: true,
        risk: RiskLevel::Medium,
        reason: "r".to_string(),
        requires_confirmation: false,
    }
}

#[test]
fn read_output_is_capped_with_size_note() {
    let short = finish_read(medium(), Ok("abc".to_string()));
    assert_eq!(short.output, "abc");
    let long = "x".repeat(60000);
    let r = finish_read(medium(), Ok(long));
    assert!(r.success);
    let expected = format!("{}...\n\n[Truncated: 60000 bytes total]", "x".repeat(50000));
    assert_eq!(r.output, expected);
    let err = finish_read(medium(), Err("denied".to_string()));
    assert!(!err.success);
    assert_eq!(err.output, "Failed to read: denied");
}

#[test]
fn truncation_respects_character_boundaries() {
    // 49,999 ASCII bytes then a two-byte character straddling the budget.
    let text = format!("{}é{}", "a".repeat(49999), "b".repeat(100));
    let total = text.len();
    let r = finish_read(medium(), Ok(text));
    let expected = format!("{}...\n\n[Truncated: {} bytes total]", "a".repeat(49999), total);
    assert_eq!(r.output, expected);
}

#[test]
fn shell_output_combines_streams() {
    let r = finish_shell(medium(), Ok(("out".to_string(), String::new())));
    assert_eq!(r.output, "out");
    let r = finish_shell(medium(), Ok(("out".to_string(), "bad".to_string())));
    assert_eq!(r.output, "out\n[STDERR]\nbad");
    let r = finish_shell(medium(), Ok(("y".repeat(30001), String::new())));
    assert_eq!(r.output, format!("{}...\n[Truncated: 30001 chars]", "y".repeat(30000)));
    let r = finish_shell(medium(), Err("no shell".to_string()));
    assert_eq!(r.output, "Failed to execute: no shell");
}

#[test]
fn packaged_messages() {
    assert_eq!(finish_delete(medium(), "D:\\x", Ok(())).output, "Deleted: D:\\x");
    assert_eq!(finish_delete(medium(), "D:\\x", Err("e".into())).output, "Failed to delete: e");
    assert_eq!(finish_create_dir(medium(), "D:\\d", Ok(())).output, "Created directory: D:\\d");
    assert_eq!(finish_move(medium(), "a", "b", Ok(())).output, "Moved a → b");
    assert_eq!(finish_copy(medium(), "a", "b", Ok(42)).output, "Copied a → b (42 bytes)");
    assert_eq!(finish_open_app(medium(), "calc", Ok(())).output, "Launched: calc");
    assert_eq!(finish_open_app(medium(), "calc", Err("e".into())).output, "Failed to open calc: e");
    let url = finish_open_url(medium(), "http://x", Err("e".into()));
    assert_eq!(url.output, "Failed: e");
    assert_eq!(url.safety.risk, RiskLevel::Safe);
    assert_eq!(finish_text(medium(), Ok("t".into())).output, "t");
    assert_eq!(file_exists("/nope", false).output, "/nope: not found");
    assert_eq!(file_exists("/tmp", true).output, "/tmp: exists");
}

#[test]
fn listing_and_info() {
    let entries = vec![
        DirEntry { name: "src".to_string(), is_dir: true, size: 4096 },
        DirEntry { name: "a.txt".to_string(), is_dir: false, size: 2048 },
    ];
    let r = finish_list(safe_verdict(), Ok(entries));
    assert_eq!(r.output, "DIR  - src\nFILE 2.0KB a.txt");
    let r = finish_list(safe_verdict(), Ok(Vec::new()));
    assert_eq!(r.output, "(empty directory)");
    let facts = FileFacts { is_dir: false, size: 10, readonly: true, modified: "None".to_string() };
    let r = file_info("f", Ok(facts));
    assert_eq!(r.output, "Path: f\nType: File\nSize: 10B\nReadonly: true\nModified: None");
}

#[test]
fn sizes_match_one_decimal_rounding() {
    assert_eq!(format_size(0), "0B");
    assert_eq!(format_size(1023), "1023B");
    assert_eq!(format_size(1024), "1.0KB");
    assert_eq!(format_size(1536), "1.5KB");
    assert_eq!(format_size(1024 * 1024), "1.0MB");
    assert_eq!(format_size(5 * 1024 * 1024 * 1024), "5.0GB");
    let samples: Vec<u64> = (0..4000u64)
        .map(|i| i * 977 + 1024)
        .chain([1280u64, 1075, 1126, 1178, 3_221_225_472, 1_610_612_736, 123_456_789_012])
        .collect();
    for b in samples {
        let expected = if b < 1024 {
            format!("{}B", b)
        } else if b < 1024 * 1024 {
            format!("{:.1}KB", b as f64 / 1024.0)
        } else if b < 1024 * 1024 * 1024 {
            format!("{:.1}MB", b as f64 / (1024.0 * 1024.0))
        } else {
            format!("{:.1}GB", b as f64 / (1024.0 * 1024.0 * 1024.0))
        };
        assert_eq!(format_size(b), expected, "{}", b);
    }
}

#[test]
fn decimals() {
    assert_eq!(decimal_string(0), "0");
    assert_eq!(decimal_string(18446744073709551615), "18446744073709551615");
}
