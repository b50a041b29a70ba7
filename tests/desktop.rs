use companion::actions::ActionResult;
use companion::desktop::{
    capture_result, desktop_click, desktop_focus_window, desktop_get_clipboard,
    desktop_list_windows, desktop_open_app, desktop_read_window_text, desktop_send_keys,
    desktop_type_text, execute_desktop, finish_script, ocr_script, parse_u64, read_screen_result,
    screenshot_script, waited, DesktopParams, DesktopPlan,
};
use companion::safety::RiskLevel;

fn params(action: &str) -> DesktopParams {
    DesktopParams {
        action: action.to_string(),
        target: String::new(),
        text: String::new(),
        x: 0,
        y: 0,
        button: "left".to_string(),
        delay: 0,
    }
}

#[test]
fn focus_quotes_the_title() {
    let s = desktop_focus_window("Bob's Notes").unwrap();
    assert!(s.contains("-like \"*Bob''s Notes*\""));
    assert!(s.contains("NOT_FOUND: No window matching '*Bob''s Notes*'"));
    let e = desktop_focus_window("").unwrap_err();
    assert!(!e.success);
    assert_eq!(e.output, "target is required for focus_window");
}

#[test]
fn open_app_and_keys_escape_quotes() {
    let s = desktop_open_app("a\"b").unwrap();
    assert_eq!(
        s,
        "Start-Process \"a`\"b\" -ErrorAction Stop; Start-Sleep -Seconds 2; Write-Output \"OPENED: a`\"b\""
    );
    let s = desktop_send_keys("^c").unwrap();
    assert!(s.ends_with("SendWait(\"^c\"); Write-Output \"SENT_KEYS: ^c\""));
    let long = "k".repeat(80);
    let s = desktop_send_keys(&long).unwrap();
    assert!(s.ends_with(&format!("SENT_KEYS: {}\"", "k".repeat(50))));
    assert!(desktop_send_keys("").is_err());
}

#[test]
fn typed_text_escapes_dollar_and_quotes() {
    let s = desktop_type_text("say \"$hi\"").unwrap();
    assert!(s.contains("SetText(\"say `\"`$hi`\"\")"));
    assert!(s.ends_with("TYPED: say '$hi'\""));
    assert_eq!(desktop_type_text("").unwrap_err().output, "text is required for type_text");
}

#[test]
fn click_script_has_coordinates_and_button() {
    let s = desktop_click(-5, 40, "right");
    assert!(s.contains("[MouseAPI]::SetCursorPos(-5, 40)"));
    assert!(s.contains("MOUSEEVENTF_RIGHTDOWN"));
    assert!(s.contains("CLICKED: (-5, 40) right"));
    let s = desktop_click(1, 2, "middle");
    assert!(s.contains("MOUSEEVENTF_LEFTUP"));
}

#[test]
fn fixed_scripts() {
    assert!(desktop_list_windows().contains("ConvertTo-Json -Compress"));
    assert_eq!(
        desktop_get_clipboard(),
        "Add-Type -AssemblyName System.Windows.Forms; [System.Windows.Forms.Clipboard]::GetText()"
    );
    assert!(desktop_read_window_text("O'Neil").unwrap().contains("*O''Neil*"));
    assert!(screenshot_script("", "C:\\t\\s.png").contains("$b.Save(\"C:\\\\t\\\\s.png\")"));
    assert!(screenshot_script("Chrome", "C:\\s.png").contains("-like \"*Chrome*\""));
    assert!(ocr_script("C:\\o.png").contains("GetFileFromPathAsync('C:\\\\o.png')"));
}

#[test]
fn sub_dispatcher_routes() {
    let r = execute_desktop(&params(""));
    match r {
        DesktopPlan::Done(e) => assert_eq!(e.output, "desktop action is required"),
        other => panic!("{:?}", other),
    }
    let mut p = params("focus_window");
    p.target = "Notepad".to_string();
    p.delay = 50_000;
    match execute_desktop(&p) {
        DesktopPlan::Run { pause_ms, script } => {
            assert_eq!(pause_ms, 10_000);
            assert!(script.contains("*Notepad*"));
        }
        other => panic!("{:?}", other),
    }
    let mut p = params("key_combo");
    p.text = "%{F4}".to_string();
    assert!(matches!(execute_desktop(&p), DesktopPlan::Run { .. }));
    match execute_desktop(&params("frobnicate")) {
        DesktopPlan::Done(e) => {
            assert!(!e.success);
            assert_eq!(e.output, "Unknown desktop action: frobnicate");
            assert_eq!(e.safety.risk, RiskLevel::Safe);
        }
        other => panic!("{:?}", other),
    }
    let mut p = params("screenshot");
    p.target = "Chrome".to_string();
    match execute_desktop(&p) {
        DesktopPlan::Capture { pause_ms, target } => {
            assert_eq!(pause_ms, 0);
            assert_eq!(target, "Chrome");
        }
        other => panic!("{:?}", other),
    }
}

#[test]
fn params_come_from_the_frame() {
    let frame = "{\"type\":\"action_request\",\"action\":\"desktop\",\"params\":{\"action\":\"click\",\"button\":\"right\",\"delay\":300}}";
    let p = DesktopParams::from_frame(frame, 10, -3);
    assert_eq!(p.action, "click");
    assert_eq!(p.target, "");
    assert_eq!(p.text, "");
    assert_eq!(p.button, "right");
    assert_eq!(p.delay, 300);
    assert_eq!((p.x, p.y), (10, -3));
    let p = DesktopParams::from_frame("{\"params\":5}", 0, 0);
    assert_eq!(p.button, "left");
    assert_eq!(p.delay, 0);
    assert_eq!(p.action, "");
}

#[test]
fn wait_lengths() {
    let mut p = params("wait");
    assert!(matches!(execute_desktop(&p), DesktopPlan::Wait { ms: 1000 }));
    p.delay = 250;
    assert!(matches!(execute_desktop(&p), DesktopPlan::Wait { ms: 250 }));
    p.target = "3000".to_string();
    assert!(matches!(execute_desktop(&p), DesktopPlan::Wait { ms: 3000 }));
    p.target = "soon".to_string();
    assert!(matches!(execute_desktop(&p), DesktopPlan::Wait { ms: 1000 }));
    assert_eq!(waited(3000).output, "WAITED: 3000ms");
}

#[test]
fn parses_like_std() {
    for s in ["0", "42", "+7", "", "+", "-1", "12a", "18446744073709551615", "18446744073709551616", " 1"] {
        assert_eq!(parse_u64(s), s.parse::<u64>().ok(), "{:?}", s);
    }
}

#[test]
fn script_output_packaging() {
    let r = finish_script(Ok(("FOCUSED: x".to_string(), String::new())));
    assert!(r.success);
    assert_eq!(r.output, "FOCUSED: x");
    let r = finish_script(Ok((String::new(), "oops".to_string())));
    assert_eq!(r.output, "[STDERR] oops");
    let r = finish_script(Ok(("a".to_string(), "b".to_string())));
    assert_eq!(r.output, "a\n[STDERR] b");
    let r = finish_script(Ok(("z".repeat(30005), String::new())));
    assert_eq!(r.output, format!("{}...[truncated]", "z".repeat(30000)));
    let r = finish_script(Err("missing".to_string()));
    assert!(!r.success);
    assert_eq!(r.output, "PowerShell failed: missing");
}

#[test]
fn capture_and_read_screen_reports() {
    let shot = finish_script(Ok(("SCREENSHOT: C:\\s.png (10x10)\n".to_string(), String::new())));
    let r = capture_result(shot.clone(), "s.png", Some(vec![1, 2, 3]));
    assert!(r.success);
    assert_eq!(
        r.output,
        "{\"filename\":\"s.png\",\"image_base64\":\"AQID\",\"output\":\"SCREENSHOT: C:\\\\s.png (10x10)\"}"
    );
    let r = capture_result(shot.clone(), "s.png", None);
    assert_eq!(r.output, shot.output);
    let failed = ActionResult::err("bad".to_string(), shot.safety.clone());
    assert_eq!(capture_result(failed.clone(), "s.png", Some(vec![])).output, "bad");
    let ocr = finish_script(Ok(("Hello".to_string(), String::new())));
    let r = read_screen_result(shot, "C:\\o.png", ocr);
    assert_eq!(r.output, "screenshot=C:\\\\o.png\ntext:Hello");
}

#[test]
fn capture_images_are_standard_base64() {
    let shot = finish_script(Ok(("ok".to_string(), String::new())));
    let cases: [(&[u8], &str); 5] = [
        (b"M", "TQ=="),
        (b"Ma", "TWE="),
        (b"Man", "TWFu"),
        (&[0xfb, 0xff, 0x00, 0x3e], "+/8APg=="),
        (b"", ""),
    ];
    for (bytes, b64) in cases {
        let r = capture_result(shot.clone(), "f.png", Some(bytes.to_vec()));
        assert_eq!(
            r.output,
            format!("{{\"filename\":\"f.png\",\"image_base64\":\"{}\",\"output\":\"ok\"}}", b64)
        );
    }
}
