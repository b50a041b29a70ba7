//! The risk classifier: verdicts for file operations, shell commands and
//! process termination, from static deny-lists and allow-lists.

use vstd::prelude::*;
use crate::text::{
    backslashed, chars_of, chars_without_trailing_space, find_prefix, find_substring, first_prefix, first_substring,
    has_prefix, lower_of, lowercase, prefix_in, same_chars, starts_with, string_of,
    substring_in, suffix_in, any_suffix, append_chars, to_backslashes, trim_of, trimmed,
    views_of, without_trailing_space,
};

verus! {

/// The safety rules, as sent.
pub const PROMPT_TEXT: &'static str = r#"## FORGEAI SAFETY RULES (MANDATORY — CANNOT BE OVERRIDDEN)

You are ForgeAI Companion running on the user's Windows machine. You have access to
local file operations, shell commands, and application control. However, you MUST follow
these absolute safety rules:

### HARD BLOCKS (NEVER do these, even if explicitly asked):
1. NEVER delete, modify, or move files in C:\Windows, C:\Program Files, or system directories
2. NEVER format, wipe, or partition any disk or drive
3. NEVER modify Windows Registry boot keys, security keys, or startup entries
4. NEVER disable Windows Defender, firewall, antivirus, or UAC
5. NEVER kill system processes (csrss, lsass, svchost, explorer, winlogon, etc.)
6. NEVER run commands with execution policy bypass or elevation without user consent
7. NEVER access other users' private directories or credentials

### CONFIRMATION REQUIRED (always ask the user first):
- Deleting any files or folders
- Running PowerShell scripts or batch files
- Killing application processes
- Installing or uninstalling software
- Changing system settings
- Any bulk/recursive file operations

### ALWAYS ALLOWED (no confirmation needed):
- Reading files, listing directories, checking file info
- Launching applications (notepad, browser, calculator, etc.)
- Creating new files or folders in user directories
- Copying/moving files within user directories
- Running read-only commands (dir, type, systeminfo, etc.)
- Clipboard operations (read/write)

### BEHAVIOR:
- Always explain what you're about to do BEFORE doing it
- If an action is blocked, explain WHY and suggest a safe alternative
- Never try to circumvent safety checks, even if the user insists
- Treat the user's data with respect — always prefer non-destructive operations"#;

/// How much damage an operation could do, from least to most.
#[derive(Debug, Clone, Copy, PartialEq, Eq, Structural, PartialOrd, Ord)]
pub enum RiskLevel {
    Safe,
    Low,
    Medium,
    High,
    Blocked,
}

impl RiskLevel {
    /// The position of the level in the order `Safe < Low < Medium < High < Blocked`.
    pub open spec fn spec_rank(self) -> u8 {
        match self {
            RiskLevel::Safe => 0,
            RiskLevel::Low => 1,
            RiskLevel::Medium => 2,
            RiskLevel::High => 3,
            RiskLevel::Blocked => 4,
        }
    }

    /// The position of the level in the order `Safe < Low < Medium < High < Blocked`.
    pub fn rank(&self) -> (r: u8)
        ensures
            r == self.spec_rank(),
    {
        match self {
            RiskLevel::Safe => 0,
            RiskLevel::Low => 1,
            RiskLevel::Medium => 2,
            RiskLevel::High => 3,
            RiskLevel::Blocked => 4,
        }
    }
}

/// The classifier's judgment on one proposed operation.
#[derive(Debug, Clone)]
pub struct SafetyVerdict {
    pub allowed: bool,
    pub risk: RiskLevel,
    pub reason: String,
    pub requires_confirmation: bool,
}

/// The decision a verdict carries, without its wording.
#[derive(Debug, Clone, Copy, PartialEq, Eq, Structural)]
pub enum Gate {
    /// Allowed at the given risk, with no confirmation asked.
    Allow(RiskLevel),
    /// Allowed at the given risk once a human has confirmed it.
    Confirm(RiskLevel),
    /// Never allowed.
    Block,
}

impl SafetyVerdict {
    /// A blocked verdict never asks for confirmation, and only a blocked
    /// verdict is at the `Blocked` level.
    pub open spec fn wf(&self) -> bool {
        &&& (self.risk == RiskLevel::Blocked ==> !self.allowed)
        &&& (self.requires_confirmation ==> self.allowed)
    }

    /// The verdict carries the decision `g`.
    pub open spec fn carries(&self, g: Gate) -> bool {
        match g {
            Gate::Allow(r) => self.allowed && !self.requires_confirmation && self.risk == r,
            Gate::Confirm(r) => self.allowed && self.requires_confirmation && self.risk == r,
            Gate::Block => !self.allowed && !self.requires_confirmation && self.risk
                == RiskLevel::Blocked,
        }
    }

    /// A verdict that carries `g`, with `reason` as its justification.
    pub fn from_gate(g: Gate, reason: String) -> (r: SafetyVerdict)
        ensures
            r.carries(g),
            r.reason@ == reason@,
    {
        match g {
            Gate::Allow(risk) => SafetyVerdict {
                allowed: true,
                risk,
                reason,
                requires_confirmation: false,
            },
            Gate::Confirm(risk) => SafetyVerdict {
                allowed: true,
                risk,
                reason,
                requires_confirmation: true,
            },
            Gate::Block => SafetyVerdict {
                allowed: false,
                risk: RiskLevel::Blocked,
                reason,
                requires_confirmation: false,
            },
        }
    }
}

/// A decision that no well-formed verdict contradicts: it never allows at
/// the `Blocked` level.
pub open spec fn gate_wf(g: Gate) -> bool {
    match g {
        Gate::Allow(r) => r != RiskLevel::Blocked,
        Gate::Confirm(r) => r != RiskLevel::Blocked,
        Gate::Block => true,
    }
}

/// The form in which paths are compared: backslashes only, lower case.
pub open spec fn normalized(path: Seq<char>) -> Seq<char> {
    lower_of(backslashed(path))
}

/// The normalized characters of `path`.
pub fn normalize(path: &str) -> (r: Vec<char>)
    ensures
        r@ == normalized(path@),
{
    let b = to_backslashes(path);
    let l = lowercase(b.as_str());
    chars_of(l.as_str())
}

// ─── Static policy data ───────────────────────────────────────────

/// Operating-system and installed-program directories, normalized.
pub open spec fn protected_roots() -> Seq<Seq<char>> {
    seq![
        "c:\\windows"@,
        "c:\\windows\\system32"@,
        "c:\\windows\\syswow64"@,
        "c:\\windows\\winsxs"@,
        "c:\\windows\\boot"@,
        "c:\\windows\\fonts"@,
        "c:\\windows\\installer"@,
        "c:\\windows\\servicing"@,
        "c:\\program files"@,
        "c:\\program files (x86)"@,
        "c:\\programdata\\microsoft"@,
        "c:\\recovery"@,
        "c:\\$recycle.bin"@,
        "c:\\system volume information"@,
        "c:\\boot"@,
        "c:\\efi"@,
    ]
}

fn protected_roots_list() -> (r: Vec<&'static str>)
    ensures
        views_of(r@) == protected_roots(),
{
    let r = vec![
        "c:\\windows",
        "c:\\windows\\system32",
        "c:\\windows\\syswow64",
        "c:\\windows\\winsxs",
        "c:\\windows\\boot",
        "c:\\windows\\fonts",
        "c:\\windows\\installer",
        "c:\\windows\\servicing",
        "c:\\program files",
        "c:\\program files (x86)",
        "c:\\programdata\\microsoft",
        "c:\\recovery",
        "c:\\$recycle.bin",
        "c:\\system volume information",
        "c:\\boot",
        "c:\\efi",
    ];
    assert(views_of(r@) =~= protected_roots());
    r
}

/// Locations where system file types are protected, normalized.
pub open spec fn system_locations() -> Seq<Seq<char>> {
    seq!["c:\\windows"@, "c:\\program files"@, "c:\\programdata\\microsoft"@]
}

fn system_locations_list() -> (r: Vec<&'static str>)
    ensures
        views_of(r@) == system_locations(),
{
    let r = vec!["c:\\windows", "c:\\program files", "c:\\programdata\\microsoft"];
    assert(views_of(r@) =~= system_locations());
    r
}

/// Endings of system file types, with their dot.
pub open spec fn system_file_endings() -> Seq<Seq<char>> {
    seq![
        ".sys"@, ".dll"@, ".exe"@, ".drv"@, ".ocx"@, ".cpl"@, ".scr"@, ".msi"@, ".msp"@,
        ".mst"@, ".cat"@, ".inf"@, ".mui"@,
    ]
}

fn system_file_endings_list() -> (r: Vec<&'static str>)
    ensures
        views_of(r@) == system_file_endings(),
{
    let r = vec![
        ".sys", ".dll", ".exe", ".drv", ".ocx", ".cpl", ".scr", ".msi", ".msp", ".mst", ".cat",
        ".inf", ".mui",
    ];
    assert(views_of(r@) =~= system_file_endings());
    r
}

/// Critical operating-system processes, by name without extension.
pub open spec fn critical_processes() -> Seq<Seq<char>> {
    seq![
        "csrss"@, "lsass"@, "smss"@, "wininit"@, "winlogon"@, "services"@, "svchost"@, "dwm"@,
        "explorer"@, "taskmgr"@, "msmpeng"@, "securityhealthservice"@,
    ]
}

fn critical_processes_list() -> (r: Vec<&'static str>)
    ensures
        views_of(r@) == critical_processes(),
{
    let r = vec![
        "csrss", "lsass", "smss", "wininit", "winlogon", "services", "svchost", "dwm",
        "explorer", "taskmgr", "msmpeng", "securityhealthservice",
    ];
    assert(views_of(r@) =~= critical_processes());
    r
}

/// Registry keys that are never writable, in lower case.
pub open spec fn protected_registry_keys() -> Seq<Seq<char>> {
    seq![
        "hklm\\system\\currentcontrolset"@,
        "hklm\\sam"@,
        "hklm\\security"@,
        "hklm\\software\\microsoft\\windows\\currentversion\\run"@,
        "hklm\\software\\microsoft\\windows nt\\currentversion\\winlogon"@,
        "hklm\\software\\policies"@,
        "hkcu\\software\\microsoft\\windows\\currentversion\\run"@,
    ]
}

fn protected_registry_list() -> (r: Vec<&'static str>)
    ensures
        views_of(r@) == protected_registry_keys(),
{
    let r = vec![
        "hklm\\system\\currentcontrolset",
        "hklm\\sam",
        "hklm\\security",
        "hklm\\software\\microsoft\\windows\\currentversion\\run",
        "hklm\\software\\microsoft\\windows nt\\currentversion\\winlogon",
        "hklm\\software\\policies",
        "hkcu\\software\\microsoft\\windows\\currentversion\\run",
    ];
    assert(views_of(r@) =~= protected_registry_keys());
    r
}

// ─── Paths, processes and registry keys ───────────────────────────

/// The path lies under a protected root, or is a system file type in a
/// system location, whatever its casing or slash style.
pub open spec fn path_protected(path: Seq<char>) -> bool {
    let n = normalized(path);
    prefix_in(n, protected_roots()) || (prefix_in(n, system_locations()) && suffix_in(
        n,
        system_file_endings(),
    ))
}

/// Whether `path` lies in a protected system location.
pub fn is_protected_path(path: &str) -> (r: bool)
    ensures
        r == path_protected(path@),
{
    let n = normalize(path);
    let roots = protected_roots_list();
    if find_prefix(&n, &roots).is_some() {
        return true;
    }
    let places = system_locations_list();
    let endings = system_file_endings_list();
    find_prefix(&n, &places).is_some() && any_suffix(&n, &endings)
}

/// The name, in lower case, is a critical process, with or without `.exe`.
pub open spec fn process_protected(name: Seq<char>) -> bool {
    let l = lower_of(name);
    exists|i: int|
        0 <= i < critical_processes().len() && (l == #[trigger] critical_processes()[i] || l
            == critical_processes()[i] + ".exe"@)
}

/// Whether `name` is a critical operating-system process.
pub fn is_protected_process(name: &str) -> (r: bool)
    ensures
        r == process_protected(name@),
{
    let l = lowercase(name);
    let lc = chars_of(l.as_str());
    let list = critical_processes_list();
    let mut i: usize = 0;
    while i < list.len()
        invariant
            i <= list.len(),
            lc@ == lower_of(name@),
            views_of(list@) == critical_processes(),
            forall|k: int|
                0 <= k < i ==> lc@ != #[trigger] critical_processes()[k] && lc@
                    != critical_processes()[k] + ".exe"@,
        decreases list.len() - i,
    {
        assert(critical_processes()[i as int] == list@[i as int]@);
        let base = string_of(list[i]);
        let bc = chars_of(base.as_str());
        let full = base.concat(".exe");
        let fc = chars_of(full.as_str());
        if same_chars(&lc, &bc) || same_chars(&lc, &fc) {
            return true;
        }
        i = i + 1;
    }
    false
}

/// Whether the registry `path` lies under a key that is never writable.
pub fn is_protected_registry(path: &str) -> (r: bool)
    ensures
        r == prefix_in(lower_of(path@), protected_registry_keys()),
{
    let l = lowercase(path);
    let lc = chars_of(l.as_str());
    let list = protected_registry_list();
    find_prefix(&lc, &list).is_some()
}

// ─── Shell commands ───────────────────────────────────────────────

/// Phrases of destructive or system-compromising commands, in lower case.
pub open spec fn blocked_phrases() -> Seq<Seq<char>> {
    seq![
        "format "@,
        "format.com"@,
        "diskpart"@,
        "clean all"@,
        "rd /s /q c:\\"@,
        "rd /s /q c:/"@,
        "rmdir /s /q c:\\"@,
        "rmdir /s /q c:/"@,
        "del /f /s /q c:\\"@,
        "del /f /s /q c:/"@,
        "cipher /w:"@,
        "sfc /scannow"@,
        "bcdedit"@,
        "bcdboot"@,
        "bootrec"@,
        "reagentc"@,
        "dism /online /cleanup"@,
        "powershell -ep bypass"@,
        "set-executionpolicy unrestricted"@,
        "disable-windowsoptionalfeature"@,
        "reg delete hklm\\system"@,
        "reg delete hklm\\software\\microsoft"@,
        "reg delete hklm\\sam"@,
        "reg delete hklm\\security"@,
        "net stop windefend"@,
        "sc stop windefend"@,
        "sc delete"@,
        "netsh advfirewall set allprofiles state off"@,
        "wmic os delete"@,
        "shutdown /s"@,
        "shutdown /r"@,
        "shutdown /f"@,
        "taskkill /f /im csrss"@,
        "taskkill /f /im lsass"@,
        "taskkill /f /im winlogon"@,
        "taskkill /f /im svchost"@,
        "taskkill /f /im smss"@,
        "takeown /f c:\\windows"@,
        "icacls c:\\windows"@,
        "mklink /d c:\\windows"@,
    ]
}

fn blocked_phrases_list() -> (r: Vec<&'static str>)
    ensures
        views_of(r@) == blocked_phrases(),
{
    let r = vec![
        "format ",
        "format.com",
        "diskpart",
        "clean all",
        "rd /s /q c:\\",
        "rd /s /q c:/",
        "rmdir /s /q c:\\",
        "rmdir /s /q c:/",
        "del /f /s /q c:\\",
        "del /f /s /q c:/",
        "cipher /w:",
        "sfc /scannow",
        "bcdedit",
        "bcdboot",
        "bootrec",
        "reagentc",
        "dism /online /cleanup",
        "powershell -ep bypass",
        "set-executionpolicy unrestricted",
        "disable-windowsoptionalfeature",
        "reg delete hklm\\system",
        "reg delete hklm\\software\\microsoft",
        "reg delete hklm\\sam",
        "reg delete hklm\\security",
        "net stop windefend",
        "sc stop windefend",
        "sc delete",
        "netsh advfirewall set allprofiles state off",
        "wmic os delete",
        "shutdown /s",
        "shutdown /r",
        "shutdown /f",
        "taskkill /f /im csrss",
        "taskkill /f /im lsass",
        "taskkill /f /im winlogon",
        "taskkill /f /im svchost",
        "taskkill /f /im smss",
        "takeown /f c:\\windows",
        "icacls c:\\windows",
        "mklink /d c:\\windows",
    ];
    assert(views_of(r@) =~= blocked_phrases());
    r
}

/// Regular expressions for recursive deletes rooted at a drive, drive
/// formatting and deletes aimed at the system directory.
pub open spec fn danger_patterns() -> Seq<Seq<char>> {
    seq![
        r"(?i)rm\s+-rf?\s+/\s*$"@,
        r"(?i)del\s+/[sfq]+\s+[a-z]:\\\s*$"@,
        r"(?i)rmdir\s+/[sq]+\s+[a-z]:\\\s*$"@,
        r#"(?i)remove-item\s+["']?[a-z]:\\["']?\s+-recurse"#@,
        r"(?i)format\s+[a-z]:"@,
        r"(?i)(?:remove-item|del|rd|rmdir)\s+.*(?:c:\\windows|system32)"@,
    ]
}

fn danger_patterns_list() -> (r: Vec<&'static str>)
    ensures
        views_of(r@) == danger_patterns(),
{
    let r = vec![
        r"(?i)rm\s+-rf?\s+/\s*$",
        r"(?i)del\s+/[sfq]+\s+[a-z]:\\\s*$",
        r"(?i)rmdir\s+/[sq]+\s+[a-z]:\\\s*$",
        r#"(?i)remove-item\s+["']?[a-z]:\\["']?\s+-recurse"#,
        r"(?i)format\s+[a-z]:",
        r"(?i)(?:remove-item|del|rd|rmdir)\s+.*(?:c:\\windows|system32)",
    ];
    assert(views_of(r@) =~= danger_patterns());
    r
}

/// `regex::Regex::new` accepts the pattern `p`.
pub uninterp spec fn pattern_compiles(p: Seq<char>) -> bool;

/// `regex::Regex::is_match` finds the compiled pattern `p` somewhere in `t`.
pub uninterp spec fn pattern_finds(p: Seq<char>, t: Seq<char>) -> bool;

/// Relies on `regex::Regex::new` (which fails on an invalid pattern) and
/// `regex::Regex::is_match` (whether the pattern matches anywhere in the text).
#[verifier::external_body]
fn pattern_search(pattern: &str, text: &str) -> (r: Option<bool>)
    ensures
        r is Some <==> pattern_compiles(pattern@),
        r matches Some(b) ==> b == pattern_finds(pattern@, text@),
{
    match regex::Regex::new(pattern) {
        Ok(re) => Some(re.is_match(text)),
        Err(_) => None,
    }
}

/// Some valid danger pattern matches `t`.
pub open spec fn pattern_hit(t: Seq<char>) -> bool {
    exists|i: int|
        0 <= i < danger_patterns().len() && pattern_compiles(#[trigger] danger_patterns()[i])
            && pattern_finds(danger_patterns()[i], t)
}

/// The text that the deny-list is checked against: lower case, trimmed.
pub open spec fn deny_form(command: Seq<char>) -> Seq<char> {
    trim_of(lower_of(command))
}

/// The command holds a deny-listed phrase or matches a danger pattern.
pub open spec fn command_denied(command: Seq<char>) -> bool {
    substring_in(deny_form(command), blocked_phrases()) || pattern_hit(deny_form(command))
}

/// The index of the first danger pattern, from index `i` on, that compiles
/// and matches `t`.
pub open spec fn first_pattern_from(t: Seq<char>, i: int) -> Option<int>
    decreases danger_patterns().len() - i,
{
    if i < 0 || i >= danger_patterns().len() {
        None
    } else if pattern_compiles(danger_patterns()[i]) && pattern_finds(danger_patterns()[i], t) {
        Some(i)
    } else {
        first_pattern_from(t, i + 1)
    }
}

/// Why a command is blocked: the first deny-listed phrase it holds, else
/// the first danger pattern it matches; nothing when neither.
pub open spec fn blocked_reason(command: Seq<char>) -> Option<Seq<char>> {
    let t = deny_form(command);
    match first_substring(t, blocked_phrases()) {
        Some(i) => Some(
            "BLOCKED: Command contains '"@ + blocked_phrases()[i] + "' which could damage the system"@,
        ),
        None => match first_pattern_from(t, 0) {
            Some(j) => Some("BLOCKED: Pattern matches a dangerous operation: "@ + danger_patterns()[j]),
            None => None,
        },
    }
}

/// The reason a command is blocked, if it is.
pub fn is_blocked_command(command: &str) -> (r: Option<String>)
    ensures
        r is Some <==> command_denied(command@),
        r matches Some(reason) ==> has_prefix(reason@, "BLOCKED: "@),
        r matches Some(reason) ==> blocked_reason(command@) == Some(reason@),
        r is None ==> blocked_reason(command@) is None,
{
    let l = lowercase(command);
    let t = trimmed(l.as_str());
    let tc = chars_of(t.as_str());
    let phrases = blocked_phrases_list();
    match find_substring(&tc, &phrases) {
        Some(i) => {
            let reason = string_of("BLOCKED: Command contains '").concat(phrases[i]).concat(
                "' which could damage the system",
            );
            proof {
                reveal_strlit("BLOCKED: Command contains '");
                reveal_strlit("BLOCKED: ");
                assert(reason@.subrange(0, 9) =~= "BLOCKED: "@);
            }
            return Some(reason);
        },
        None => {},
    }
    let pats = danger_patterns_list();
    let mut i: usize = 0;
    while i < pats.len()
        invariant
            i <= pats.len(),
            t@ == deny_form(command@),
            views_of(pats@) == danger_patterns(),
            forall|k: int|
                0 <= k < i ==> !(pattern_compiles(#[trigger] danger_patterns()[k])
                    && pattern_finds(danger_patterns()[k], t@)),
            first_substring(t@, blocked_phrases()) is None,
            first_pattern_from(t@, 0) == first_pattern_from(t@, i as int),
        decreases pats.len() - i,
    {
        assert(danger_patterns()[i as int] == pats@[i as int]@);
        match pattern_search(pats[i], t.as_str()) {
            Some(true) => {
                let reason = string_of("BLOCKED: Pattern matches a dangerous operation: ").concat(
                    pats[i],
                );
                proof {
                    reveal_strlit("BLOCKED: Pattern matches a dangerous operation: ");
                    reveal_strlit("BLOCKED: ");
                    assert(reason@.subrange(0, 9) =~= "BLOCKED: "@);
                }
                return Some(reason);
            },
            _ => {},
        }
        i = i + 1;
    }
    None
}

/// Read-only commands, by prefix; each also counts as the whole command
/// without its trailing space.
pub open spec fn read_only_commands() -> Seq<Seq<char>> {
    seq![
        "dir "@, "ls "@, "type "@, "cat "@, "echo "@, "where "@, "whoami"@, "hostname"@,
        "ipconfig"@, "systeminfo"@, "tasklist"@, "wmic cpu"@, "wmic memorychip"@,
        "wmic diskdrive"@, "ver"@, "date /t"@, "time /t"@, "set "@, "path"@, "tree "@,
    ]
}

fn read_only_commands_list() -> (r: Vec<&'static str>)
    ensures
        views_of(r@) == read_only_commands(),
{
    let r = vec![
        "dir ", "ls ", "type ", "cat ", "echo ", "where ", "whoami", "hostname", "ipconfig",
        "systeminfo", "tasklist", "wmic cpu", "wmic memorychip", "wmic diskdrive", "ver",
        "date /t", "time /t", "set ", "path", "tree ",
    ];
    assert(views_of(r@) =~= read_only_commands());
    r
}

/// Application launches and ordinary file commands, by prefix.
pub open spec fn ordinary_commands() -> Seq<Seq<char>> {
    seq![
        "start "@, "open "@, "code "@, "notepad"@, "calc"@, "mspaint"@, "mkdir "@, "md "@,
        "copy "@, "xcopy "@, "move "@, "ren "@, "npm "@, "pnpm "@, "node "@, "python "@,
        "pip "@, "git "@, "curl "@, "wget "@,
    ]
}

fn ordinary_commands_list() -> (r: Vec<&'static str>)
    ensures
        views_of(r@) == ordinary_commands(),
{
    let r = vec![
        "start ", "open ", "code ", "notepad", "calc", "mspaint", "mkdir ", "md ", "copy ",
        "xcopy ", "move ", "ren ", "npm ", "pnpm ", "node ", "python ", "pip ", "git ",
        "curl ", "wget ",
    ];
    assert(views_of(r@) =~= ordinary_commands());
    r
}

/// Commands that change state or touch processes, the registry or the
/// network configuration, by prefix.
pub open spec fn state_changing_commands() -> Seq<Seq<char>> {
    seq![
        "del "@, "erase "@, "rmdir "@, "rd "@, "taskkill "@, "net "@, "netsh "@, "sc "@,
        "reg "@, "powershell "@, "pwsh "@, "cmd /c"@, "wmic "@, "runas "@,
    ]
}

fn state_changing_commands_list() -> (r: Vec<&'static str>)
    ensures
        views_of(r@) == state_changing_commands(),
{
    let r = vec![
        "del ", "erase ", "rmdir ", "rd ", "taskkill ", "net ", "netsh ", "sc ", "reg ",
        "powershell ", "pwsh ", "cmd /c", "wmic ", "runas ",
    ];
    assert(views_of(r@) =~= state_changing_commands());
    r
}

/// The lower-cased command is a read-only one.
pub open spec fn read_only_command(l: Seq<char>) -> bool {
    exists|i: int|
        0 <= i < read_only_commands().len() && (has_prefix(l, #[trigger] read_only_commands()[i])
            || l == without_trailing_space(read_only_commands()[i]))
}

/// The decision on a shell command: the deny-list first, then read-only,
/// then ordinary commands; everything else waits for a human.
pub open spec fn shell_gate(command: Seq<char>) -> Gate {
    if command_denied(command) {
        Gate::Block
    } else if read_only_command(lower_of(command)) {
        Gate::Allow(RiskLevel::Safe)
    } else if prefix_in(lower_of(command), ordinary_commands()) {
        Gate::Allow(RiskLevel::Medium)
    } else {
        Gate::Confirm(RiskLevel::High)
    }
}

fn matches_read_only(l: &Vec<char>) -> (r: bool)
    ensures
        r == read_only_command(l@),
{
    let list = read_only_commands_list();
    let mut i: usize = 0;
    while i < list.len()
        invariant
            i <= list.len(),
            views_of(list@) == read_only_commands(),
            forall|k: int|
                0 <= k < i ==> !has_prefix(l@, #[trigger] read_only_commands()[k]) && l@
                    != without_trailing_space(read_only_commands()[k]),
        decreases list.len() - i,
    {
        assert(read_only_commands()[i as int] == list@[i as int]@);
        let p = chars_of(list[i]);
        let bare = chars_without_trailing_space(list[i]);
        if starts_with(l, &p) || same_chars(l, &bare) {
            return true;
        }
        i = i + 1;
    }
    false
}

/// The justification of the verdict on a shell command.
pub open spec fn shell_reason(command: Seq<char>) -> Seq<char> {
    match blocked_reason(command) {
        Some(r) => r,
        None => {
            let l = lower_of(command);
            if read_only_command(l) {
                "Read-only command"@
            } else {
                match first_prefix(l, ordinary_commands()) {
                    Some(i) => "Application/file command: "@ + without_trailing_space(
                        ordinary_commands()[i],
                    ),
                    None => match first_prefix(l, state_changing_commands()) {
                        Some(i) => "High-risk command '"@ + without_trailing_space(
                            state_changing_commands()[i],
                        ) + "' requires user confirmation"@,
                        None => "Unknown command — requires user confirmation"@,
                    },
                }
            }
        },
    }
}

/// The verdict on a shell command.
pub fn check_shell_command(command: &str) -> (r: SafetyVerdict)
    ensures
        r.carries(shell_gate(command@)),
        r.reason@ == shell_reason(command@),
        r.wf(),
        r.risk != RiskLevel::Safe ==> r.reason@.len() > 0,
{
    match is_blocked_command(command) {
        Some(reason) => {
            proof {
                reveal_strlit("BLOCKED: ");
            }
            return SafetyVerdict::from_gate(Gate::Block, reason);
        },
        None => {},
    }
    let l = lowercase(command);
    let lc = chars_of(l.as_str());
    if matches_read_only(&lc) {
        return SafetyVerdict::from_gate(Gate::Allow(RiskLevel::Safe), string_of("Read-only command"));
    }
    let ordinary = ordinary_commands_list();
    match find_prefix(&lc, &ordinary) {
        Some(i) => {
            let name = chars_without_trailing_space(ordinary[i]);
            let mut reason = string_of("Application/file command: ");
            append_chars(&mut reason, &name);
            proof {
                reveal_strlit("Application/file command: ");
            }
            return SafetyVerdict::from_gate(Gate::Allow(RiskLevel::Medium), reason);
        },
        None => {},
    }
    let high = state_changing_commands_list();
    match find_prefix(&lc, &high) {
        Some(i) => {
            let name = chars_without_trailing_space(high[i]);
            let mut reason = string_of("High-risk command '");
            append_chars(&mut reason, &name);
            let reason = reason.concat("' requires user confirmation");
            proof {
                reveal_strlit("High-risk command '");
            }
            SafetyVerdict::from_gate(Gate::Confirm(RiskLevel::High), reason)
        },
        None => {
            proof {
                reveal_strlit("Unknown command — requires user confirmation");
            }
            SafetyVerdict::from_gate(
                Gate::Confirm(RiskLevel::High),
                string_of("Unknown command — requires user confirmation"),
            )
        },
    }
}

// ─── File operations ──────────────────────────────────────────────

/// The directories under which the operator's files may be written.
#[derive(Debug, Clone)]
pub struct UserRoots {
    /// The operator's home directory.
    pub home: String,
    /// The system temporary directory.
    pub temp: String,
}

/// Relies on `dirs::home_dir`: the operator's home directory, when the
/// platform reports one, as text. It depends on the environment, so
/// nothing is stated of it.
#[verifier::external_body]
fn home_directory() -> (r: Option<String>) {
    match dirs::home_dir() {
        Some(p) => Some(p.to_string_lossy().into_owned()),
        None => None,
    }
}

/// The home root used when the platform reports none.
pub open spec fn default_home() -> Seq<char> {
    "C:\\Users\\Default"@
}

impl UserRoots {
    /// The roots for the home directory `home` that the platform reported
    /// (the default profile directory when it reported none, or an empty
    /// one) and the temporary directory `temp`.
    pub fn roots_from(home: Option<String>, temp: String) -> (r: UserRoots)
        ensures
            r.temp == temp,
            r.home@ == (match home {
                Some(h) => if h@.len() > 0 {
                    h@
                } else {
                    default_home()
                },
                None => default_home(),
            }),
    {
        match home {
            Some(h) => {
                if h.as_str().is_empty() {
                    UserRoots { home: string_of("C:\\Users\\Default"), temp }
                } else {
                    UserRoots { home: h, temp }
                }
            },
            None => UserRoots { home: string_of("C:\\Users\\Default"), temp },
        }
    }

    /// The roots of this machine: the home directory that the platform
    /// reports, and the given temporary directory.
    pub fn detect(temp: String) -> (r: UserRoots)
        ensures
            r.temp == temp,
            r.home@.len() > 0,
    {
        proof {
            reveal_strlit("C:\\Users\\Default");
        }
        UserRoots::roots_from(home_directory(), temp)
    }
}

/// `n` lies under the non-empty directory `root`, both compared in normalized form.
pub open spec fn under_root(n: Seq<char>, root: Seq<char>) -> bool {
    root.len() > 0 && has_prefix(n, normalized(root))
}

/// `n` names a drive other than the system drive `c:`.
pub open spec fn on_other_drive(n: Seq<char>) -> bool {
    &&& n.len() >= 3
    &&& (('a' <= n[0] <= 'z') || ('A' <= n[0] <= 'Z'))
    &&& n[1] == ':'
    &&& n[0] != 'c'
}

/// The path may receive written files: under the home or temporary
/// directory, or on a drive other than the system drive.
pub open spec fn in_user_area(path: Seq<char>, roots: UserRoots) -> bool {
    let n = normalized(path);
    under_root(n, roots.home@) || under_root(n, roots.temp@) || on_other_drive(n)
}

fn is_under_root(n: &Vec<char>, root: &String) -> (r: bool)
    ensures
        r == under_root(n@, root@),
{
    if root.as_str().is_empty() {
        return false;
    }
    let nr = normalize(root.as_str());
    starts_with(n, &nr)
}

/// Whether `path` lies where the operator's files may be written.
pub fn is_user_directory(path: &str, roots: &UserRoots) -> (r: bool)
    ensures
        r == in_user_area(path@, *roots),
{
    let n = normalize(path);
    if is_under_root(&n, &roots.home) || is_under_root(&n, &roots.temp) {
        return true;
    }
    n.len() >= 3 && (('a' <= n[0] && n[0] <= 'z') || ('A' <= n[0] && n[0] <= 'Z')) && n[1] == ':'
        && n[0] != 'c'
}

/// Operation kinds that only read.
pub open spec fn reading_ops() -> Seq<Seq<char>> {
    seq!["read"@, "list"@, "stat"@, "exists"@]
}

/// Operation kinds that delete.
pub open spec fn deleting_ops() -> Seq<Seq<char>> {
    seq!["delete"@, "remove"@, "rmdir"@]
}

/// Operation kinds that write, create or relocate.
pub open spec fn writing_ops() -> Seq<Seq<char>> {
    seq!["write"@, "create"@, "move"@, "copy"@, "rename"@]
}

fn reading_ops_list() -> (r: Vec<&'static str>)
    ensures
        views_of(r@) == reading_ops(),
{
    let r = vec!["read", "list", "stat", "exists"];
    assert(views_of(r@) =~= reading_ops());
    r
}

fn deleting_ops_list() -> (r: Vec<&'static str>)
    ensures
        views_of(r@) == deleting_ops(),
{
    let r = vec!["delete", "remove", "rmdir"];
    assert(views_of(r@) =~= deleting_ops());
    r
}

fn writing_ops_list() -> (r: Vec<&'static str>)
    ensures
        views_of(r@) == writing_ops(),
{
    let r = vec!["write", "create", "move", "copy", "rename"];
    assert(views_of(r@) =~= writing_ops());
    r
}

fn is_one_of(s: &Vec<char>, list: &Vec<&str>) -> (r: bool)
    ensures
        r == views_of(list@).contains(s@),
{
    let mut i: usize = 0;
    while i < list.len()
        invariant
            i <= list.len(),
            forall|k: int| 0 <= k < i ==> s@ != #[trigger] list@[k]@,
        decreases list.len() - i,
    {
        let p = chars_of(list[i]);
        if same_chars(s, &p) {
            assert(views_of(list@)[i as int] == list@[i as int]@);
            return true;
        }
        i = i + 1;
    }
    assert forall|k: int| 0 <= k < views_of(list@).len() implies views_of(list@)[k] != s@ by {
        assert(views_of(list@)[k] == list@[k]@);
    }
    false
}

/// The decision on operation `op` (any casing) at `path`: reads always
/// pass; anything else on a protected path is blocked; deletes elsewhere
/// pass at `Medium`; writes pass at `Medium` inside the user area and are
/// blocked outside it; unknown kinds wait for a human.
pub open spec fn file_gate(op: Seq<char>, path: Seq<char>, roots: UserRoots) -> Gate {
    file_gate_for(lower_of(op), path, roots)
}

/// The decision on the lower-case operation kind `o` at `path`.
pub open spec fn file_gate_for(o: Seq<char>, path: Seq<char>, roots: UserRoots) -> Gate {
    if reading_ops().contains(o) {
        Gate::Allow(RiskLevel::Safe)
    } else if path_protected(path) {
        Gate::Block
    } else if deleting_ops().contains(o) {
        Gate::Allow(RiskLevel::Medium)
    } else if writing_ops().contains(o) {
        if in_user_area(path, roots) {
            Gate::Allow(RiskLevel::Medium)
        } else {
            Gate::Block
        }
    } else {
        Gate::Confirm(RiskLevel::Medium)
    }
}

/// The justification of the verdict on the lower-case operation kind `o`
/// (written `operation` by the caller) at `path`.
pub open spec fn file_reason_for(o: Seq<char>, operation: Seq<char>, path: Seq<char>, roots: UserRoots) -> Seq<char> {
    if reading_ops().contains(o) {
        "Read operations are always allowed"@
    } else if path_protected(path) {
        "BLOCKED: '"@ + path + "' is a system-protected path. This operation is never allowed."@
    } else if deleting_ops().contains(o) {
        "Delete operation on '"@ + path + "' — path is not system-protected"@
    } else if writing_ops().contains(o) {
        if in_user_area(path, roots) {
            "File operation within user directory"@
        } else {
            "BLOCKED: Cannot write to '"@ + path + "' — outside user directory"@
        }
    } else {
        "Unknown operation '"@ + operation + "' — requires confirmation"@
    }
}

/// The justification of the verdict on operation `op` (any casing) at `path`.
pub open spec fn file_reason(op: Seq<char>, path: Seq<char>, roots: UserRoots) -> Seq<char> {
    file_reason_for(lower_of(op), op, path, roots)
}

/// Prefix of the reason of every blocked verdict.
pub open spec fn blocked_marker() -> Seq<char> {
    "BLOCKED: "@
}

/// The verdict on file operation `operation` at `path`.
pub fn check_file_operation(operation: &str, path: &str, roots: &UserRoots) -> (r: SafetyVerdict)
    ensures
        r.carries(file_gate(operation@, path@, *roots)),
        r.reason@ == file_reason(operation@, path@, *roots),
        r.wf(),
        r.risk != RiskLevel::Safe ==> r.reason@.len() > 0,
        !r.allowed ==> has_prefix(r.reason@, blocked_marker()),
{
    let lo = lowercase(operation);
    let o = chars_of(lo.as_str());
    check_file_kind(&o, operation, path, roots)
}

/// The verdict on the lower-case operation kind `o` at `path`; `operation`
/// is the kind as the caller wrote it.
pub fn check_file_kind(o: &Vec<char>, operation: &str, path: &str, roots: &UserRoots) -> (r: SafetyVerdict)
    ensures
        r.carries(file_gate_for(o@, path@, *roots)),
        r.reason@ == file_reason_for(o@, operation@, path@, *roots),
        r.wf(),
        r.risk != RiskLevel::Safe ==> r.reason@.len() > 0,
        !r.allowed ==> has_prefix(r.reason@, blocked_marker()),
{
    proof {
        reveal_strlit("BLOCKED: ");
    }
    if is_one_of(o, &reading_ops_list()) {
        return SafetyVerdict::from_gate(
            Gate::Allow(RiskLevel::Safe),
            string_of("Read operations are always allowed"),
        );
    }
    if is_protected_path(path) {
        let reason = string_of("BLOCKED: '").concat(path).concat(
            "' is a system-protected path. This operation is never allowed.",
        );
        proof {
            reveal_strlit("BLOCKED: '");
            assert(reason@.subrange(0, 9) =~= "BLOCKED: "@);
        }
        return SafetyVerdict::from_gate(Gate::Block, reason);
    }
    if is_one_of(o, &deleting_ops_list()) {
        let reason = string_of("Delete operation on '").concat(path).concat(
            "' — path is not system-protected",
        );
        proof {
            reveal_strlit("Delete operation on '");
        }
        return SafetyVerdict::from_gate(Gate::Allow(RiskLevel::Medium), reason);
    }
    if is_one_of(o, &writing_ops_list()) {
        if !is_user_directory(path, roots) {
            let reason = string_of("BLOCKED: Cannot write to '").concat(path).concat(
                "' — outside user directory",
            );
            proof {
                reveal_strlit("BLOCKED: Cannot write to '");
                assert(reason@.subrange(0, 9) =~= "BLOCKED: "@);
            }
            return SafetyVerdict::from_gate(Gate::Block, reason);
        }
        proof {
            reveal_strlit("File operation within user directory");
        }
        return SafetyVerdict::from_gate(
            Gate::Allow(RiskLevel::Medium),
            string_of("File operation within user directory"),
        );
    }
    let reason = string_of("Unknown operation '").concat(operation).concat(
        "' — requires confirmation",
    );
    proof {
        reveal_strlit("Unknown operation '");
    }
    SafetyVerdict::from_gate(Gate::Confirm(RiskLevel::Medium), reason)
}

// ─── Processes ────────────────────────────────────────────────────

/// The decision on terminating process `name`: critical processes are
/// blocked, every other termination waits for a human.
pub open spec fn kill_gate(name: Seq<char>) -> Gate {
    if process_protected(name) {
        Gate::Block
    } else {
        Gate::Confirm(RiskLevel::High)
    }
}

/// The justification of the verdict on terminating process `name`.
pub open spec fn kill_reason(name: Seq<char>) -> Seq<char> {
    if process_protected(name) {
        "BLOCKED: '"@ + name + "' is a critical system process and cannot be terminated"@
    } else {
        "Killing process '"@ + name + "' requires confirmation"@
    }
}

/// The verdict on terminating process `process_name`.
pub fn check_process_kill(process_name: &str) -> (r: SafetyVerdict)
    ensures
        r.carries(kill_gate(process_name@)),
        r.reason@ == kill_reason(process_name@),
        r.wf(),
        r.reason@.len() > 0,
        !r.allowed ==> has_prefix(r.reason@, blocked_marker()),
{
    if is_protected_process(process_name) {
        let reason = string_of("BLOCKED: '").concat(process_name).concat(
            "' is a critical system process and cannot be terminated",
        );
        proof {
            reveal_strlit("BLOCKED: '");
            reveal_strlit("BLOCKED: ");
            assert(reason@.subrange(0, 9) =~= "BLOCKED: "@);
        }
        return SafetyVerdict::from_gate(Gate::Block, reason);
    }
    let reason = string_of("Killing process '").concat(process_name).concat(
        "' requires confirmation",
    );
    proof {
        reveal_strlit("Killing process '");
    }
    SafetyVerdict::from_gate(Gate::Confirm(RiskLevel::High), reason)
}

// ─── Instructions for the language model ──────────────────────────

/// The safety rules injected into every language-model request.
pub open spec fn safety_prompt() -> Seq<char> {
    PROMPT_TEXT@
}

/// The safety rules injected into every language-model request.
pub fn get_safety_system_prompt() -> (r: String)
    ensures
        r@ == safety_prompt(),
{
    string_of(PROMPT_TEXT)
}

// ─── Laws ─────────────────────────────────────────────────────────

/// `a` and `b` are the same character, or both are path separators.
pub open spec fn same_up_to_slashes(a: char, b: char) -> bool {
    a == b || ((a == '/' || a == '\\') && (b == '/' || b == '\\'))
}

/// Any operation other than a read on a path under a protected root is
/// blocked, whatever the operation's name or the user area.
pub proof fn lemma_protected_path_blocks(op: Seq<char>, path: Seq<char>, roots: UserRoots)
    requires
        path_protected(path),
        !reading_ops().contains(lower_of(op)),
    ensures
        file_gate(op, path, roots) == Gate::Block,
{
}

/// Two paths that differ only in slash style get the same decision for
/// every operation, and so do two paths with the same lower-case form.
pub proof fn lemma_file_gate_ignores_spelling(
    op: Seq<char>,
    p: Seq<char>,
    q: Seq<char>,
    roots: UserRoots,
)
    requires
        (p.len() == q.len() && forall|i: int| 0 <= i < p.len() ==> same_up_to_slashes(p[i], q[i]))
            || normalized(p) == normalized(q),
    ensures
        file_gate(op, p, roots) == file_gate(op, q, roots),
        path_protected(p) == path_protected(q),
{
    if p.len() == q.len() && forall|i: int| 0 <= i < p.len() ==> same_up_to_slashes(p[i], q[i]) {
        assert(backslashed(p) =~= backslashed(q)) by {
            assert forall|i: int| 0 <= i < p.len() implies backslashed(p)[i] == backslashed(q)[i] by {
                assert(same_up_to_slashes(p[i], q[i]));
            }
        }
    }
}

/// A command holding a deny-listed phrase is blocked, even when it also
/// starts with a read-only or ordinary command.
pub proof fn lemma_deny_list_wins(command: Seq<char>)
    requires
        substring_in(deny_form(command), blocked_phrases()),
    ensures
        shell_gate(command) == Gate::Block,
{
}

/// Every decision the classifier makes is well formed, and a verdict that
/// carries a well-formed decision never asks for confirmation while
/// blocking.
pub proof fn lemma_verdict_invariant(
    v: SafetyVerdict,
    op: Seq<char>,
    path: Seq<char>,
    command: Seq<char>,
    name: Seq<char>,
    roots: UserRoots,
)
    ensures
        gate_wf(file_gate(op, path, roots)),
        gate_wf(shell_gate(command)),
        gate_wf(kill_gate(name)),
        forall|g: Gate| gate_wf(g) && v.carries(g) ==> v.wf(),
        v.requires_confirmation && (v.carries(file_gate(op, path, roots)) || v.carries(
            shell_gate(command),
        ) || v.carries(kill_gate(name))) ==> v.allowed,
{
}

} // verus!
