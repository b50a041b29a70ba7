use companion::safety::{
    check_file_operation, check_process_kill, check_shell_command, is_blocked_command,
    is_protected_path, is_protected_process, is_protected_registry, is_user_directory,
    RiskLevel, UserRoots,
};

fn roots() -> UserRoots {
    UserRoots { home: "C:\\Users\\John".to_string(), temp: "/tmp".to_string() }
}

#[test]
fn test_protected_paths() {
    assert!(is_protected_path("C:\\Windows\\System32\\cmd.exe"));
    assert!(is_protected_path("C:\\Program Files\\something"));
    assert!(is_protected_path("c:\\windows\\system32"));
    assert!(!is_protected_path("C:\\Users\\John\\Documents\\file.txt"));
    assert!(!is_protected_path("D:\\Projects\\code.rs"));
}

#[test]
fn test_blocked_commands() {
    assert!(is_blocked_command("format C:").is_some());
    assert!(is_blocked_command("diskpart").is_some());
    assert!(is_blocked_command("rd /s /q C:\\").is_some());
    assert!(is_blocked_command("net stop windefend").is_some());
    assert!(is_blocked_command("sc stop windefend").is_some());
    assert!(is_blocked_command("dir C:\\Users").is_none());
    assert!(is_blocked_command("notepad").is_none());
}

#[test]
fn test_protected_processes() {
    assert!(is_protected_process("csrss.exe"));
    assert!(is_protected_process("lsass"));
    assert!(is_protected_process("svchost.exe"));
    assert!(!is_protected_process("notepad.exe"));
    assert!(!is_protected_process("chrome.exe"));
}

#[test]
fn test_file_operations() {
    let read = check_file_operation("read", "C:\\Windows\\System32\\config", &roots());
    assert!(read.allowed);
    assert_eq!(read.risk, RiskLevel::Safe);

    let delete_sys = check_file_operation("delete", "C:\\Windows\\System32\\cmd.exe", &roots());
    assert!(!delete_sys.allowed);
    assert_eq!(delete_sys.risk, RiskLevel::Blocked);

    let write_sys = check_file_operation("write", "C:\\Windows\\test.txt", &roots());
    assert!(!write_sys.allowed);
    assert_eq!(write_sys.risk, RiskLevel::Blocked);
}

#[test]
fn test_shell_commands() {
    let safe = check_shell_command("dir C:\\Users");
    assert!(safe.allowed);
    assert_eq!(safe.risk, RiskLevel::Safe);

    let blocked = check_shell_command("format C:");
    assert!(!blocked.allowed);
    assert_eq!(blocked.risk, RiskLevel::Blocked);

    let high = check_shell_command("del somefile.txt");
    assert!(high.allowed);
    assert!(high.requires_confirmation);
}

#[test]
fn protected_path_ignores_case_and_slashes() {
    assert!(is_protected_path("c:/WINDOWS/system32/drivers/etc/hosts"));
    assert!(is_protected_path("C:\\PROGRAM FILES (X86)\\App\\app.exe"));
    for op in ["delete", "write", "create", "move", "copy", "rename", "chmod"] {
        let v = check_file_operation(op, "c:/windows/system32/cmd.exe", &roots());
        assert!(!v.allowed, "{}", op);
        assert_eq!(v.risk, RiskLevel::Blocked);
        assert!(!v.requires_confirmation);
        assert!(v.reason.starts_with("BLOCKED: "));
    }
}

#[test]
fn read_operations_are_safe_everywhere() {
    for op in ["read", "LIST", "stat", "Exists"] {
        let v = check_file_operation(op, "C:\\Windows\\System32", &roots());
        assert!(v.allowed);
        assert_eq!(v.risk, RiskLevel::Safe);
        assert!(!v.requires_confirmation);
    }
}

#[test]
fn delete_outside_protected_roots_is_medium() {
    let v = check_file_operation("delete", "C:\\Users\\John\\old.txt", &roots());
    assert!(v.allowed);
    assert_eq!(v.risk, RiskLevel::Medium);
    assert!(!v.requires_confirmation);
}

#[test]
fn writes_need_a_user_root() {
    let home = check_file_operation("write", "C:\\Users\\John\\notes.txt", &roots());
    assert!(home.allowed);
    assert_eq!(home.risk, RiskLevel::Medium);
    assert!(!home.requires_confirmation);

    let temp = check_file_operation("create", "/tmp/scratch", &roots());
    assert!(temp.allowed);

    let other_drive = check_file_operation("copy", "D:\\Projects\\code.rs", &roots());
    assert!(other_drive.allowed);

    let elsewhere = check_file_operation("write", "C:\\Other\\file.txt", &roots());
    assert!(!elsewhere.allowed);
    assert_eq!(elsewhere.risk, RiskLevel::Blocked);

    let unix = check_file_operation("move", "/etc/passwd", &roots());
    assert!(!unix.allowed);
}

#[test]
fn unknown_file_operation_asks_first() {
    let v = check_file_operation("chmod", "C:\\Users\\John\\a.txt", &roots());
    assert!(v.allowed);
    assert_eq!(v.risk, RiskLevel::Medium);
    assert!(v.requires_confirmation);
    assert_eq!(v.reason, "Unknown operation 'chmod' — requires confirmation");
}

#[test]
fn user_directory_rules() {
    let r = roots();
    assert!(is_user_directory("c:/users/john/Desktop", &r));
    assert!(is_user_directory("/tmp/x", &r));
    assert!(is_user_directory("E:\\data", &r));
    assert!(!is_user_directory("C:\\data", &r));
    assert!(!is_user_directory("E:", &r));
    let empty = UserRoots { home: String::new(), temp: String::new() };
    assert!(!is_user_directory("/anything", &empty));
}

#[test]
fn deny_list_wins_over_safe_prefix() {
    let v = check_shell_command("dir C:\\ & format C:");
    assert!(!v.allowed);
    assert_eq!(v.risk, RiskLevel::Blocked);
    let v = check_shell_command("echo hi && diskpart");
    assert_eq!(v.risk, RiskLevel::Blocked);
    let v = check_shell_command("notepad & shutdown /s");
    assert_eq!(v.risk, RiskLevel::Blocked);
}

#[test]
fn danger_patterns_block() {
    assert!(is_blocked_command("rm -rf /").is_some());
    assert!(is_blocked_command("Remove-Item 'C:\\' -Recurse").is_some());
    assert!(is_blocked_command("del C:\\Windows\\foo.dll").is_some());
    let reason = is_blocked_command("del /q c:\\  ").unwrap();
    assert!(reason.starts_with("BLOCKED: Pattern matches a dangerous operation: "));
    let reason = is_blocked_command("DISKPART").unwrap();
    assert_eq!(reason, "BLOCKED: Command contains 'diskpart' which could damage the system");
    let v = check_shell_command("dir x & diskpart");
    assert_eq!(v.reason, "BLOCKED: Command contains 'diskpart' which could damage the system");
}

#[test]
fn shell_tiers() {
    let v = check_shell_command("whoami");
    assert_eq!(v.risk, RiskLevel::Safe);
    let v = check_shell_command("dir");
    assert_eq!(v.risk, RiskLevel::Safe);
    let v = check_shell_command("git status");
    assert_eq!(v.risk, RiskLevel::Medium);
    assert!(!v.requires_confirmation);
    assert_eq!(v.reason, "Application/file command: git");
    let v = check_shell_command("taskkill /im notepad.exe");
    assert_eq!(v.risk, RiskLevel::High);
    assert!(v.requires_confirmation);
    assert_eq!(v.reason, "High-risk command 'taskkill' requires user confirmation");
    let v = check_shell_command("frobnicate --all");
    assert_eq!(v.risk, RiskLevel::High);
    assert!(v.requires_confirmation);
    assert!(v.allowed);
}

#[test]
fn svchost_kill_is_blocked() {
    let v = check_process_kill("svchost.exe");
    assert!(!v.allowed);
    assert_eq!(v.risk, RiskLevel::Blocked);
    assert!(!v.requires_confirmation);
    let v = check_process_kill("SVCHOST");
    assert_eq!(v.risk, RiskLevel::Blocked);
}

#[test]
fn other_kills_ask_first() {
    let v = check_process_kill("notepad.exe");
    assert!(v.allowed);
    assert_eq!(v.risk, RiskLevel::High);
    assert!(v.requires_confirmation);
}

#[test]
fn registry_roots() {
    assert!(is_protected_registry("HKLM\\SAM\\Domains"));
    assert!(is_protected_registry("hkcu\\software\\microsoft\\windows\\currentversion\\run\\x"));
    assert!(!is_protected_registry("HKCU\\Software\\MyApp"));
}

#[test]
fn verdicts_never_block_and_ask() {
    let mut verdicts = Vec::new();
    for c in ["format c:", "dir", "git x", "del x", "zzz"] {
        verdicts.push(check_shell_command(c));
    }
    for (op, p) in [("read", "C:\\Windows"), ("write", "C:\\x"), ("chmod", "D:\\y"), ("delete", "D:\\z")] {
        verdicts.push(check_file_operation(op, p, &roots()));
    }
    for n in ["lsass", "code.exe"] {
        verdicts.push(check_process_kill(n));
    }
    for v in verdicts {
        assert!(!(v.requires_confirmation && !v.allowed));
        assert!(!(v.risk == RiskLevel::Blocked && v.allowed));
    }
}

#[test]
fn risk_order() {
    let levels = [RiskLevel::Safe, RiskLevel::Low, RiskLevel::Medium, RiskLevel::High, RiskLevel::Blocked];
    for (i, l) in levels.iter().enumerate() {
        assert_eq!(l.rank() as usize, i);
    }
    assert!(RiskLevel::Safe < RiskLevel::Low);
    assert!(RiskLevel::High < RiskLevel::Blocked);
}

#[test]
fn detected_roots_keep_temp() {
    let r = UserRoots::detect("/var/tmp".to_string());
    assert_eq!(r.temp, "/var/tmp");
    assert!(!r.home.is_empty());
}

#[test]
fn roots_from_reported_home() {
    let r = UserRoots::roots_from(Some("/home/op".to_string()), "/tmp".to_string());
    assert_eq!(r.home, "/home/op");
    let r = UserRoots::roots_from(Some(String::new()), "/tmp".to_string());
    assert_eq!(r.home, "C:\\Users\\Default");
    let r = UserRoots::roots_from(None, "/tmp".to_string());
    assert_eq!(r.home, "C:\\Users\\Default");
    assert_eq!(r.temp, "/tmp");
}

#[test]
fn lowercase_is_applied() {
    // A path written in capitals still matches the lower-case roots.
    assert!(is_protected_path("C:\\EFI\\BOOT"));
    assert!(is_protected_process("LSASS.EXE"));
}
