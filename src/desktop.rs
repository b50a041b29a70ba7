//! Desktop automation: the sub-dispatcher that turns a desktop request
//! into a PowerShell script (or a wait, or a screen capture) for the host
//! to run, and the packaging of what those scripts print.

use vstd::prelude::*;
use crate::actions::{is_safe_verdict, safe_verdict, ActionResult};
use crate::channel::{
    json_quoted, json_string_at, json_u64_at, quote_json, string_at, text_or_empty, u64_at,
};
use crate::output::{
    byte_len, byte_prefix, decimal, decimal_string, prefix_within, signed_decimal,
    signed_decimal_string,
};
use crate::text::{chars_of, replace_chars, replaced, same_chars, string_of, trim_of, trimmed};

verus! {

/// Lists the visible windows with a title, their process and process id, as JSON.
pub const LIST_WINDOWS_SCRIPT: &'static str = r##"
Add-Type @"
using System; using System.Runtime.InteropServices; using System.Text;
public class WinAPI {
    [DllImport("user32.dll")] public static extern bool EnumWindows(EnumWindowsProc cb, IntPtr lp);
    [DllImport("user32.dll")] public static extern bool IsWindowVisible(IntPtr h);
    [DllImport("user32.dll")] public static extern int GetWindowTextLength(IntPtr h);
    [DllImport("user32.dll", CharSet=CharSet.Auto)] public static extern int GetWindowText(IntPtr h, StringBuilder s, int n);
    [DllImport("user32.dll")] public static extern uint GetWindowThreadProcessId(IntPtr h, out uint pid);
    public delegate bool EnumWindowsProc(IntPtr h, IntPtr lp);
    public static string GetTitle(IntPtr h) { int l=GetWindowTextLength(h); if(l==0)return""; var sb=new StringBuilder(l+1); GetWindowText(h,sb,sb.Capacity); return sb.ToString(); }
}
"@
$list = @()
[WinAPI]::EnumWindows({ param($h,$l)
    if([WinAPI]::IsWindowVisible($h)) {
        $t=[WinAPI]::GetTitle($h)
        if($t -ne "") {
            $pid=[uint32]0; [WinAPI]::GetWindowThreadProcessId($h,[ref]$pid)|Out-Null
            $p=Get-Process -Id $pid -EA SilentlyContinue
            $list += [PSCustomObject]@{Title=$t; Process=if($p){$p.ProcessName}else{"?"}; PID=$pid}
        }
    }; $true
}, [IntPtr]::Zero)|Out-Null
$list | ConvertTo-Json -Compress
"##;

/// Part of the script that restores and focuses the first window whose title matches.
pub const FOCUS_0: &'static str = r##"
Add-Type @"
using System; using System.Runtime.InteropServices; using System.Text;
public class WinAPI {
    [DllImport("user32.dll")] public static extern bool EnumWindows(EnumWindowsProc cb, IntPtr lp);
    [DllImport("user32.dll")] public static extern bool IsWindowVisible(IntPtr h);
    [DllImport("user32.dll")] public static extern int GetWindowTextLength(IntPtr h);
    [DllImport("user32.dll", CharSet=CharSet.Auto)] public static extern int GetWindowText(IntPtr h, StringBuilder s, int n);
    [DllImport("user32.dll")] public static extern bool SetForegroundWindow(IntPtr h);
    [DllImport("user32.dll")] public static extern bool ShowWindow(IntPtr h, int cmd);
    public delegate bool EnumWindowsProc(IntPtr h, IntPtr lp);
    public static string GetTitle(IntPtr h) { int l=GetWindowTextLength(h); if(l==0)return""; var sb=new StringBuilder(l+1); GetWindowText(h,sb,sb.Capacity); return sb.ToString(); }
}
"@
$found=$false
[WinAPI]::EnumWindows({ param($h,$l)
    if([WinAPI]::IsWindowVisible($h)) {
        $t=[WinAPI]::GetTitle($h)
        if($t -like "*"##;

/// Continued (part 2).
pub const FOCUS_1: &'static str = r##"*") {
            [WinAPI]::ShowWindow($h,9)|Out-Null; Start-Sleep -Ms 200
            [WinAPI]::SetForegroundWindow($h)|Out-Null
            Write-Output "FOCUSED: $t"
            $script:found=$true; return $false
        }
    }; $true
}, [IntPtr]::Zero)|Out-Null
if(-not $found) { Write-Output "NOT_FOUND: No window matching '*"##;

/// Continued (part 3).
pub const FOCUS_2: &'static str = r##"*'" }
"##;

/// Part of the script that moves the cursor and clicks.
pub const CLICK_0: &'static str = r##"
Add-Type @"
using System; using System.Runtime.InteropServices;
public class MouseAPI {
    [DllImport("user32.dll")] public static extern bool SetCursorPos(int X, int Y);
    [DllImport("user32.dll")] public static extern void mouse_event(uint f, int dx, int dy, uint d, IntPtr e);
    public const uint MOUSEEVENTF_LEFTDOWN=2; public const uint MOUSEEVENTF_LEFTUP=4;
    public const uint MOUSEEVENTF_RIGHTDOWN=8; public const uint MOUSEEVENTF_RIGHTUP=16;
}
"@
[MouseAPI]::SetCursorPos("##;

/// Continued (part 2).
pub const CLICK_1: &'static str = r##", "##;

/// Continued (part 3).
pub const CLICK_2: &'static str = r##"); Start-Sleep -Ms 50
[MouseAPI]::mouse_event([MouseAPI]::"##;

/// Continued (part 4).
pub const CLICK_3: &'static str = r##", 0,0,0,[IntPtr]::Zero); Start-Sleep -Ms 50
[MouseAPI]::mouse_event([MouseAPI]::"##;

/// Continued (part 5).
pub const CLICK_4: &'static str = r##", 0,0,0,[IntPtr]::Zero)
Write-Output "CLICKED: ("##;

/// Continued (part 6).
pub const CLICK_5: &'static str = r##", "##;

/// Continued (part 7).
pub const CLICK_6: &'static str = r##") "##;

/// Continued (part 8).
pub const CLICK_7: &'static str = r##""
"##;

/// Part of the script that captures the primary screen to a file.
pub const SHOT_SCREEN_0: &'static str = r##"
Add-Type -AssemblyName System.Windows.Forms; Add-Type -AssemblyName System.Drawing
$s=[System.Windows.Forms.Screen]::PrimaryScreen.Bounds
$b=New-Object System.Drawing.Bitmap($s.Width,$s.Height)
$g=[System.Drawing.Graphics]::FromImage($b)
$g.CopyFromScreen(0,0,0,0,[System.Drawing.Size]::new($s.Width,$s.Height))
$b.Save(""##;

/// Continued (part 2).
pub const SHOT_SCREEN_1: &'static str = r##"")
$g.Dispose(); $b.Dispose()
Write-Output "SCREENSHOT: "##;

/// Continued (part 3).
pub const SHOT_SCREEN_2: &'static str = r##" ($($s.Width)x$($s.Height))"
"##;

/// Part of the script that captures the first window whose title matches to a file.
pub const SHOT_WINDOW_0: &'static str = r##"
Add-Type @"
using System; using System.Runtime.InteropServices; using System.Text; using System.Drawing;
public class WinAPI {
    [DllImport("user32.dll")] public static extern bool EnumWindows(EnumWindowsProc cb, IntPtr lp);
    [DllImport("user32.dll")] public static extern bool IsWindowVisible(IntPtr h);
    [DllImport("user32.dll")] public static extern int GetWindowTextLength(IntPtr h);
    [DllImport("user32.dll", CharSet=CharSet.Auto)] public static extern int GetWindowText(IntPtr h, StringBuilder s, int n);
    [DllImport("user32.dll")] public static extern bool GetWindowRect(IntPtr h, out RECT r);
    [DllImport("user32.dll")] public static extern bool PrintWindow(IntPtr h, IntPtr hdc, uint f);
    public delegate bool EnumWindowsProc(IntPtr h, IntPtr lp);
    [StructLayout(LayoutKind.Sequential)] public struct RECT { public int Left,Top,Right,Bottom; }
    public static string GetTitle(IntPtr h) { int l=GetWindowTextLength(h); if(l==0)return""; var sb=new StringBuilder(l+1); GetWindowText(h,sb,sb.Capacity); return sb.ToString(); }
}
"@
Add-Type -AssemblyName System.Drawing
$script:found=$false
[WinAPI]::EnumWindows({ param($h,$l)
    if([WinAPI]::IsWindowVisible($h)) {
        $t=[WinAPI]::GetTitle($h)
        if($t -like "*"##;

/// Continued (part 2).
pub const SHOT_WINDOW_1: &'static str = r##"*") {
            $r=New-Object WinAPI+RECT; [WinAPI]::GetWindowRect($h,[ref]$r)|Out-Null
            $w=$r.Right-$r.Left; $ht=$r.Bottom-$r.Top
            if($w -gt 0 -and $ht -gt 0) {
                $bmp=New-Object System.Drawing.Bitmap($w,$ht)
                $g=[System.Drawing.Graphics]::FromImage($bmp)
                $hdc=$g.GetHdc()
                [WinAPI]::PrintWindow($h,$hdc,2)|Out-Null
                $g.ReleaseHdc($hdc); $g.Dispose()
                $bmp.Save(""##;

/// Continued (part 3).
pub const SHOT_WINDOW_2: &'static str = r##""); $bmp.Dispose()
                Write-Output "SCREENSHOT: "##;

/// Continued (part 4).
pub const SHOT_WINDOW_3: &'static str = r##" (${w}x${ht}) [window: $t]"
                $script:found=$true; return $false
            }
        }
    }; $true
}, [IntPtr]::Zero)|Out-Null
if(-not $found) { Write-Output "NOT_FOUND: No window matching '*"##;

/// Continued (part 5).
pub const SHOT_WINDOW_4: &'static str = r##"*'" }
"##;

/// Part of the script that recognizes the text of an image file.
pub const OCR_0: &'static str = r##"
Add-Type -AssemblyName System.Runtime.WindowsRuntime
$null=[Windows.Media.Ocr.OcrEngine,Windows.Foundation,ContentType=WindowsRuntime]
$null=[Windows.Graphics.Imaging.BitmapDecoder,Windows.Foundation,ContentType=WindowsRuntime]
$null=[Windows.Storage.StorageFile,Windows.Foundation,ContentType=WindowsRuntime]
$asTaskGeneric=([System.WindowsRuntimeSystemExtensions].GetMethods()|Where-Object{$_.Name -eq 'AsTask' -and $_.GetParameters().Count -eq 1 -and $_.GetParameters()[0].ParameterType.Name -eq 'IAsyncOperation`1'})[0]
Function AwaitOp($t,$r){$task=$asTaskGeneric.MakeGenericMethod($r).Invoke($null,@($t));if(-not $task.Wait(20000)){throw "timeout"};$task.Result}
try {
    $f=AwaitOp ([Windows.Storage.StorageFile]::GetFileFromPathAsync('"##;

/// Continued (part 2).
pub const OCR_1: &'static str = r##"')) ([Windows.Storage.StorageFile])
    $s=AwaitOp ($f.OpenAsync([Windows.Storage.FileAccessMode]::Read)) ([Windows.Storage.Streams.IRandomAccessStream])
    $d=AwaitOp ([Windows.Graphics.Imaging.BitmapDecoder]::CreateAsync($s)) ([Windows.Graphics.Imaging.BitmapDecoder])
    $b=AwaitOp ($d.GetSoftwareBitmapAsync()) ([Windows.Graphics.Imaging.SoftwareBitmap])
    $e=[Windows.Media.Ocr.OcrEngine]::TryCreateFromUserProfileLanguages()
    if(-not $e){$e=[Windows.Media.Ocr.OcrEngine]::TryCreateFromLanguage([Windows.Globalization.Language]::new("en-US"))}
    if($e){$r=AwaitOp ($e.RecognizeAsync($b)) ([Windows.Media.Ocr.OcrResult]); Write-Output $r.Text}
    else{Write-Output "OCR_ERROR: No OCR engine available"}
} catch { Write-Output "OCR_ERROR: $($_.Exception.Message)" }
"##;

/// Part of the script that reads the text elements and inputs of the first window whose title matches.
pub const READ_TEXT_0: &'static str = r##"
Add-Type -AssemblyName UIAutomationClient; Add-Type -AssemblyName UIAutomationTypes
$root=[System.Windows.Automation.AutomationElement]::RootElement
$wins=$root.FindAll([System.Windows.Automation.TreeScope]::Children,[System.Windows.Automation.Condition]::TrueCondition)
$tw=$null
foreach($w in $wins){ try{ if($w.Current.Name -like "*"##;

/// Continued (part 2).
pub const READ_TEXT_1: &'static str = r##"*"){$tw=$w;break} }catch{} }
if(-not $tw){ Write-Output "NOT_FOUND: No window matching '*"##;

/// Continued (part 3).
pub const READ_TEXT_2: &'static str = r##"*'"; return }
$texts=@()
$tc=New-Object System.Windows.Automation.PropertyCondition([System.Windows.Automation.AutomationElement]::ControlTypeProperty,[System.Windows.Automation.ControlType]::Text)
$els=$tw.FindAll([System.Windows.Automation.TreeScope]::Descendants,$tc)
foreach($el in $els){ try{ $n=$el.Current.Name; if($n -and $n.Trim()){$texts+=$n.Trim()} }catch{} }
$ec=New-Object System.Windows.Automation.PropertyCondition([System.Windows.Automation.AutomationElement]::ControlTypeProperty,[System.Windows.Automation.ControlType]::Edit)
$edits=$tw.FindAll([System.Windows.Automation.TreeScope]::Descendants,$ec)
foreach($el in $edits){ try{ $vp=$el.GetCurrentPattern([System.Windows.Automation.ValuePattern]::Pattern); if($vp -and $vp.Current.Value){$texts+="[INPUT] "+$vp.Current.Value} }catch{} }
if($texts.Count -eq 0){ Write-Output "NO_TEXT_FOUND: Window found but no readable text" }
else{ $texts -join [Environment]::NewLine }
"##;

/// Longest pause, in milliseconds, before or as a desktop action.
pub const MAX_PAUSE_MS: u64 = 10000;

/// Wait, in milliseconds, of a `wait` action that names none.
pub const DEFAULT_WAIT_MS: u64 = 1000;

/// Byte budget of a script's combined output.
pub const SCRIPT_BUDGET: usize = 30000;

// ─── Quoting ──────────────────────────────────────────────────────

/// `t` inside a single-quoted PowerShell string: quotes doubled.
pub open spec fn single_quoted(t: Seq<char>) -> Seq<char> {
    replaced(t, '\'', "''"@, '\'', "''"@)
}

/// `t` inside a double-quoted PowerShell string: quotes escaped with a backtick.
pub open spec fn double_quoted(t: Seq<char>) -> Seq<char> {
    replaced(t, '"', "`\""@, '"', "`\""@)
}

/// `t` inside a double-quoted PowerShell string, with `$` escaped as well.
pub open spec fn literal_text(t: Seq<char>) -> Seq<char> {
    replaced(t, '"', "`\""@, '$', "`$"@)
}

/// A path inside a script whose backslashes are escapes: backslashes doubled.
pub open spec fn escaped_path(t: Seq<char>) -> Seq<char> {
    replaced(t, '\\', "\\\\"@, '\\', "\\\\"@)
}

// ─── Scripts ──────────────────────────────────────────────────────

/// The script that lists the visible windows.
pub fn desktop_list_windows() -> (r: String)
    ensures
        r@ == LIST_WINDOWS_SCRIPT@,
{
    string_of(LIST_WINDOWS_SCRIPT)
}

/// The script that reads the clipboard text.
pub open spec fn clipboard_script() -> Seq<char> {
    "Add-Type -AssemblyName System.Windows.Forms; [System.Windows.Forms.Clipboard]::GetText()"@
}

/// The script that reads the clipboard text.
pub fn desktop_get_clipboard() -> (r: String)
    ensures
        r@ == clipboard_script(),
{
    string_of("Add-Type -AssemblyName System.Windows.Forms; [System.Windows.Forms.Clipboard]::GetText()")
}

/// The failure for a desktop action that lacks its input.
pub open spec fn input_error(r: ActionResult, message: Seq<char>) -> bool {
    !r.success && r.output@ == message && is_safe_verdict(r.safety)
}

fn input_missing(message: &str) -> (r: ActionResult)
    ensures
        input_error(r, message@),
{
    ActionResult::err(string_of(message), safe_verdict())
}

/// The script that focuses the first visible window whose title contains `target`.
pub open spec fn focus_script(target: Seq<char>) -> Seq<char> {
    FOCUS_0@ + single_quoted(target) + FOCUS_1@ + single_quoted(target) + FOCUS_2@
}

/// The script that focuses the window whose title contains `target`; an
/// empty `target` is an input error.
pub fn desktop_focus_window(target: &str) -> (r: Result<String, ActionResult>)
    ensures
        target@.len() == 0 ==> (r matches Err(e) && input_error(e, "target is required for focus_window"@)),
        target@.len() > 0 ==> (r matches Ok(s) && s@ == focus_script(target@)),
{
    if target.is_empty() {
        return Err(input_missing("target is required for focus_window"));
    }
    let q = replace_chars(target, '\'', "''", '\'', "''");
    Ok(string_of(FOCUS_0).concat(q.as_str()).concat(FOCUS_1).concat(q.as_str()).concat(FOCUS_2))
}

/// The script that starts application `target` and reports it.
pub open spec fn open_app_script(target: Seq<char>) -> Seq<char> {
    "Start-Process \""@ + double_quoted(target)
        + "\" -ErrorAction Stop; Start-Sleep -Seconds 2; Write-Output \"OPENED: "@
        + double_quoted(target) + "\""@
}

/// The script that starts application `target`; an empty `target` is an
/// input error.
pub fn desktop_open_app(target: &str) -> (r: Result<String, ActionResult>)
    ensures
        target@.len() == 0 ==> (r matches Err(e) && input_error(e, "target is required for open_app"@)),
        target@.len() > 0 ==> (r matches Ok(s) && s@ == open_app_script(target@)),
{
    if target.is_empty() {
        return Err(input_missing("target is required for open_app"));
    }
    let q = replace_chars(target, '"', "`\"", '"', "`\"");
    Ok(string_of("Start-Process \"").concat(q.as_str()).concat(
        "\" -ErrorAction Stop; Start-Sleep -Seconds 2; Write-Output \"OPENED: ",
    ).concat(q.as_str()).concat("\""))
}

/// Bytes of injected keys echoed back in a script's report.
pub const KEYS_SHOWN: usize = 50;

/// Bytes of typed text echoed back in a script's report.
pub const TEXT_SHOWN: usize = 60;

/// The script that sends the key sequence `keys` to the focused window.
pub open spec fn send_keys_script(keys: Seq<char>) -> Seq<char> {
    "Add-Type -AssemblyName System.Windows.Forms; Start-Sleep -Ms 300; [System.Windows.Forms.SendKeys]::SendWait(\""@
        + double_quoted(keys) + "\"); Write-Output \"SENT_KEYS: "@ + byte_prefix(
        keys,
        KEYS_SHOWN as nat,
    ) + "\""@
}

/// The script that sends the key sequence `keys`; empty `keys` are an
/// input error.
pub fn desktop_send_keys(keys: &str) -> (r: Result<String, ActionResult>)
    requires
        byte_len(keys@) <= usize::MAX,
    ensures
        keys@.len() == 0 ==> (r matches Err(e) && input_error(e, "text is required for send_keys"@)),
        keys@.len() > 0 ==> (r matches Ok(s) && s@ == send_keys_script(keys@)),
{
    if keys.is_empty() {
        return Err(input_missing("text is required for send_keys"));
    }
    let q = replace_chars(keys, '"', "`\"", '"', "`\"");
    let shown = prefix_within(keys, KEYS_SHOWN);
    Ok(string_of(
        "Add-Type -AssemblyName System.Windows.Forms; Start-Sleep -Ms 300; [System.Windows.Forms.SendKeys]::SendWait(\"",
    ).concat(q.as_str()).concat("\"); Write-Output \"SENT_KEYS: ").concat(shown).concat("\""))
}

/// The script that types `text` into the focused window through the clipboard.
pub open spec fn type_text_script(text: Seq<char>) -> Seq<char> {
    "Add-Type -AssemblyName System.Windows.Forms; Start-Sleep -Ms 200; [System.Windows.Forms.Clipboard]::SetText(\""@
        + literal_text(text)
        + "\"); Start-Sleep -Ms 100; [System.Windows.Forms.SendKeys]::SendWait(\"^v\"); Write-Output \"TYPED: "@
        + replaced(byte_prefix(text, TEXT_SHOWN as nat), '"', "'"@, '"', "'"@) + "\""@
}

/// The script that types `text`; empty `text` is an input error.
pub fn desktop_type_text(text: &str) -> (r: Result<String, ActionResult>)
    requires
        byte_len(text@) <= usize::MAX,
    ensures
        text@.len() == 0 ==> (r matches Err(e) && input_error(e, "text is required for type_text"@)),
        text@.len() > 0 ==> (r matches Ok(s) && s@ == type_text_script(text@)),
{
    if text.is_empty() {
        return Err(input_missing("text is required for type_text"));
    }
    let q = replace_chars(text, '"', "`\"", '$', "`$");
    let shown = prefix_within(text, TEXT_SHOWN);
    let display = replace_chars(shown, '"', "'", '"', "'");
    Ok(string_of(
        "Add-Type -AssemblyName System.Windows.Forms; Start-Sleep -Ms 200; [System.Windows.Forms.Clipboard]::SetText(\"",
    ).concat(q.as_str()).concat(
        "\"); Start-Sleep -Ms 100; [System.Windows.Forms.SendKeys]::SendWait(\"^v\"); Write-Output \"TYPED: ",
    ).concat(display.as_str()).concat("\""))
}

/// The mouse events of a click with `button`: the right button when it is
/// `right`, the left one otherwise.
pub open spec fn click_events(button: Seq<char>) -> (Seq<char>, Seq<char>) {
    if button == "right"@ {
        ("MOUSEEVENTF_RIGHTDOWN"@, "MOUSEEVENTF_RIGHTUP"@)
    } else {
        ("MOUSEEVENTF_LEFTDOWN"@, "MOUSEEVENTF_LEFTUP"@)
    }
}

/// The script that clicks `button` at screen point (`x`, `y`).
pub open spec fn click_script(x: int, y: int, button: Seq<char>) -> Seq<char> {
    CLICK_0@ + signed_decimal(x) + CLICK_1@ + signed_decimal(y) + CLICK_2@ + click_events(button).0
        + CLICK_3@ + click_events(button).1 + CLICK_4@ + signed_decimal(x) + CLICK_5@
        + signed_decimal(y) + CLICK_6@ + button + CLICK_7@
}

/// The script that clicks `button` at screen point (`x`, `y`).
pub fn desktop_click(x: i32, y: i32, button: &str) -> (r: String)
    ensures
        r@ == click_script(x as int, y as int, button@),
{
    let b = chars_of(button);
    let right = chars_of("right");
    let (down, up) = if same_chars(&b, &right) {
        ("MOUSEEVENTF_RIGHTDOWN", "MOUSEEVENTF_RIGHTUP")
    } else {
        ("MOUSEEVENTF_LEFTDOWN", "MOUSEEVENTF_LEFTUP")
    };
    let xs = signed_decimal_string(x);
    let ys = signed_decimal_string(y);
    string_of(CLICK_0).concat(xs.as_str()).concat(CLICK_1).concat(ys.as_str()).concat(CLICK_2).concat(
        down,
    ).concat(CLICK_3).concat(up).concat(CLICK_4).concat(xs.as_str()).concat(CLICK_5).concat(
        ys.as_str(),
    ).concat(CLICK_6).concat(button).concat(CLICK_7)
}

/// The script that reads the text of the first window whose title contains `target`.
pub open spec fn read_text_script(target: Seq<char>) -> Seq<char> {
    READ_TEXT_0@ + single_quoted(target) + READ_TEXT_1@ + single_quoted(target) + READ_TEXT_2@
}

/// The script that reads the text of the window whose title contains
/// `target`; an empty `target` is an input error.
pub fn desktop_read_window_text(target: &str) -> (r: Result<String, ActionResult>)
    ensures
        target@.len() == 0 ==> (r matches Err(e) && input_error(e, "target is required for read_window_text"@)),
        target@.len() > 0 ==> (r matches Ok(s) && s@ == read_text_script(target@)),
{
    if target.is_empty() {
        return Err(input_missing("target is required for read_window_text"));
    }
    let q = replace_chars(target, '\'', "''", '\'', "''");
    Ok(string_of(READ_TEXT_0).concat(q.as_str()).concat(READ_TEXT_1).concat(q.as_str()).concat(
        READ_TEXT_2,
    ))
}

/// The script that saves a capture to `path`: the whole primary screen when
/// `target` is empty, else the first window whose title contains it.
pub open spec fn screenshot_script_text(target: Seq<char>, path: Seq<char>) -> Seq<char> {
    if target.len() == 0 {
        SHOT_SCREEN_0@ + escaped_path(path) + SHOT_SCREEN_1@ + escaped_path(path) + SHOT_SCREEN_2@
    } else {
        SHOT_WINDOW_0@ + single_quoted(target) + SHOT_WINDOW_1@ + escaped_path(path)
            + SHOT_WINDOW_2@ + escaped_path(path) + SHOT_WINDOW_3@ + single_quoted(target)
            + SHOT_WINDOW_4@
    }
}

/// The script that saves a capture of the screen or of a window to `path`.
pub fn screenshot_script(target: &str, path: &str) -> (r: String)
    ensures
        r@ == screenshot_script_text(target@, path@),
{
    let p = replace_chars(path, '\\', "\\\\", '\\', "\\\\");
    if target.is_empty() {
        string_of(SHOT_SCREEN_0).concat(p.as_str()).concat(SHOT_SCREEN_1).concat(p.as_str()).concat(
            SHOT_SCREEN_2,
        )
    } else {
        let q = replace_chars(target, '\'', "''", '\'', "''");
        string_of(SHOT_WINDOW_0).concat(q.as_str()).concat(SHOT_WINDOW_1).concat(p.as_str()).concat(
            SHOT_WINDOW_2,
        ).concat(p.as_str()).concat(SHOT_WINDOW_3).concat(q.as_str()).concat(SHOT_WINDOW_4)
    }
}

/// The script that recognizes the text of the image at `path`.
pub fn ocr_script(path: &str) -> (r: String)
    ensures
        r@ == OCR_0@ + escaped_path(path@) + OCR_1@,
{
    let p = replace_chars(path, '\\', "\\\\", '\\', "\\\\");
    string_of(OCR_0).concat(p.as_str()).concat(OCR_1)
}

// ─── Parsing a wait ───────────────────────────────────────────────

/// The value of the decimal digits `s`.
pub open spec fn digits_value(s: Seq<char>) -> nat
    decreases s.len(),
{
    if s.len() == 0 {
        0
    } else {
        digits_value(s.drop_last()) * 10 + ((s.last() as nat) - 48) as nat
    }
}

/// Every character of `s` is an ASCII digit.
pub open spec fn all_digits(s: Seq<char>) -> bool {
    forall|i: int| 0 <= i < s.len() ==> '0' <= #[trigger] s[i] <= '9'
}

/// The number `u64::from_str` reads from `s`: an optional `+`, then at
/// least one digit, with a value that fits.
pub open spec fn parsed_u64(s: Seq<char>) -> Option<nat> {
    let d = if s.len() > 0 && s[0] == '+' { s.drop_first() } else { s };
    if d.len() > 0 && all_digits(d) && digits_value(d) <= u64::MAX {
        Some(digits_value(d))
    } else {
        None
    }
}

/// Reads an unsigned decimal number.
pub fn parse_u64(s: &str) -> (r: Option<u64>)
    ensures
        r matches Some(n) ==> parsed_u64(s@) == Some(n as nat),
        r is None ==> parsed_u64(s@) is None,
{
    let v = chars_of(s);
    let start: usize = if v.len() > 0 && v[0] == '+' { 1 } else { 0 };
    let ghost d = if s@.len() > 0 && s@[0] == '+' { s@.drop_first() } else { s@ };
    assert(d =~= v@.subrange(start as int, v.len() as int));
    if start >= v.len() {
        return None;
    }
    let mut acc: u128 = 0;
    let mut over = false;
    let mut i: usize = start;
    while i < v.len()
        invariant
            start <= i <= v.len(),
            v@ == s@,
            d == (if s@.len() > 0 && s@[0] == '+' { s@.drop_first() } else { s@ }),
            d =~= v@.subrange(start as int, v.len() as int),
            all_digits(v@.subrange(start as int, i as int)),
            over ==> digits_value(v@.subrange(start as int, i as int)) > u64::MAX,
            !over ==> acc == digits_value(v@.subrange(start as int, i as int)) && acc <= u64::MAX,
        decreases v.len() - i,
    {
        let c = v[i];
        if !('0' <= c && c <= '9') {
            assert(d[i - start] == c);
            assert(!('0' <= d[i - start] <= '9'));
            assert(!all_digits(d));
            return None;
        }
        let ghost prev = v@.subrange(start as int, i as int);
        let ghost next = v@.subrange(start as int, i + 1);
        assert(next.drop_last() =~= prev);
        assert(next.last() == c);
        let digit = ((c as u32) - 48) as u128;
        if !over {
            let n = acc * 10 + digit;
            if n > u64::MAX as u128 {
                over = true;
            } else {
                acc = n;
            }
        } else {
            let ghost dv = digits_value(prev);
            assert(dv * 10 + ((c as nat) - 48) as nat > u64::MAX) by (nonlinear_arith)
                requires
                    dv > u64::MAX,
            ;
        }
        i = i + 1;
    }
    if over {
        None
    } else {
        Some(acc as u64)
    }
}

// ─── The sub-dispatcher ───────────────────────────────────────────

/// The fields of a desktop request.
#[derive(Debug, Clone)]
pub struct DesktopParams {
    pub action: String,
    pub target: String,
    pub text: String,
    pub x: i32,
    pub y: i32,
    pub button: String,
    pub delay: u64,
}

/// `p` holds the desktop parameters of the frame `frame`: action, target
/// and text as the string members of `params` (empty when absent), the
/// button (`left` when absent), the delay (zero when absent) and the
/// coordinates `x` and `y` given.
pub open spec fn desktop_params_of(p: DesktopParams, frame: Seq<char>, x: i32, y: i32) -> bool {
    &&& p.action@ == text_or_empty(json_string_at(frame, "/params/action"@))
    &&& p.target@ == text_or_empty(json_string_at(frame, "/params/target"@))
    &&& p.text@ == text_or_empty(json_string_at(frame, "/params/text"@))
    &&& p.button@ == (match json_string_at(frame, "/params/button"@) {
        Some(b) => b,
        None => "left"@,
    })
    &&& p.delay == (match json_u64_at(frame, "/params/delay"@) {
        Some(d) => d,
        None => 0,
    })
    &&& p.x == x
    &&& p.y == y
}

fn member_or(frame: &str, pointer: &str, default: &str) -> (r: String)
    ensures
        r@ == (match json_string_at(frame@, pointer@) {
            Some(t) => t,
            None => default@,
        }),
{
    match string_at(frame, pointer) {
        Some(t) => t,
        None => string_of(default),
    }
}

impl DesktopParams {
    /// The desktop parameters of the frame `frame`, with the screen
    /// coordinates `x` and `y` that the host read from it.
    pub fn from_frame(frame: &str, x: i32, y: i32) -> (r: DesktopParams)
        ensures
            desktop_params_of(r, frame@, x, y),
    {
        let action = member_or(frame, "/params/action", "");
        let target = member_or(frame, "/params/target", "");
        let text = member_or(frame, "/params/text", "");
        let button = member_or(frame, "/params/button", "left");
        let delay = match u64_at(frame, "/params/delay") {
            Some(d) => d,
            None => 0,
        };
        proof {
            reveal_strlit("");
            assert(""@ =~= Seq::<char>::empty());
        }
        DesktopParams { action, target, text, x, y, button, delay }
    }
}

/// What the host does for a desktop request.
#[derive(Debug, Clone)]
pub enum DesktopPlan {
    /// Answered without running anything.
    Done(ActionResult),
    /// Pause, run the script, and package its output with `finish_script`.
    Run { pause_ms: u64, script: String },
    /// Sleep at most `MAX_PAUSE_MS` of `ms`, then answer with `waited(ms)`.
    Wait { ms: u64 },
    /// Pause, then capture the screen or the window matching `target`.
    Capture { pause_ms: u64, target: String },
    /// Pause, capture, then recognize the captured text.
    ReadScreen { pause_ms: u64, target: String },
}

/// The pause before any desktop action but `wait`.
pub open spec fn pause_of(p: DesktopParams) -> u64 {
    if p.delay > MAX_PAUSE_MS {
        MAX_PAUSE_MS
    } else {
        p.delay
    }
}

/// How long a `wait` waits: the number its target names (the default when
/// it names none), else its delay, else the default.
pub open spec fn wait_of(p: DesktopParams) -> nat {
    if p.target@.len() > 0 {
        match parsed_u64(p.target@) {
            Some(n) => n,
            None => DEFAULT_WAIT_MS as nat,
        }
    } else if p.delay > 0 {
        p.delay as nat
    } else {
        DEFAULT_WAIT_MS as nat
    }
}

/// `r` runs `script` after the pause of `p`, or is the input error
/// `message` when `input` is empty.
pub open spec fn runs_or_fails(
    r: DesktopPlan,
    p: DesktopParams,
    input: Seq<char>,
    message: Seq<char>,
    script: Seq<char>,
) -> bool {
    if input.len() == 0 {
        r matches DesktopPlan::Done(e) && input_error(e, message)
    } else {
        r matches DesktopPlan::Run { pause_ms, script: s } && pause_ms == pause_of(p) && s@
            == script
    }
}

/// What `execute_desktop` hands back for `p`.
pub open spec fn desktop_planned(r: DesktopPlan, p: DesktopParams) -> bool {
    let a = p.action@;
    if a.len() == 0 {
        r matches DesktopPlan::Done(e) && input_error(e, "desktop action is required"@)
    } else if a == "list_windows"@ {
        r matches DesktopPlan::Run { pause_ms, script } && pause_ms == pause_of(p) && script@
            == LIST_WINDOWS_SCRIPT@
    } else if a == "focus_window"@ {
        runs_or_fails(r, p, p.target@, "target is required for focus_window"@, focus_script(p.target@))
    } else if a == "open_app"@ {
        runs_or_fails(r, p, p.target@, "target is required for open_app"@, open_app_script(p.target@))
    } else if a == "send_keys"@ || a == "key_combo"@ {
        runs_or_fails(r, p, p.text@, "text is required for send_keys"@, send_keys_script(p.text@))
    } else if a == "type_text"@ {
        runs_or_fails(r, p, p.text@, "text is required for type_text"@, type_text_script(p.text@))
    } else if a == "click"@ {
        r matches DesktopPlan::Run { pause_ms, script } && pause_ms == pause_of(p) && script@
            == click_script(p.x as int, p.y as int, p.button@)
    } else if a == "screenshot"@ {
        r matches DesktopPlan::Capture { pause_ms, target } && pause_ms == pause_of(p) && target
            == p.target
    } else if a == "read_screen"@ {
        r matches DesktopPlan::ReadScreen { pause_ms, target } && pause_ms == pause_of(p) && target
            == p.target
    } else if a == "read_window_text"@ {
        runs_or_fails(
            r,
            p,
            p.target@,
            "target is required for read_window_text"@,
            read_text_script(p.target@),
        )
    } else if a == "get_clipboard"@ {
        r matches DesktopPlan::Run { pause_ms, script } && pause_ms == pause_of(p) && script@
            == clipboard_script()
    } else if a == "wait"@ {
        r matches DesktopPlan::Wait { ms } && ms as nat == wait_of(p)
    } else {
        r matches DesktopPlan::Done(e) && !e.success && is_safe_verdict(e.safety) && e.output@
            == "Unknown desktop action: "@ + a
    }
}

fn run_or_fail(pause_ms: u64, built: Result<String, ActionResult>) -> (r: DesktopPlan)
    ensures
        built matches Ok(s) ==> r == (DesktopPlan::Run { pause_ms, script: s }),
        built matches Err(e) ==> r == DesktopPlan::Done(e),
{
    match built {
        Ok(script) => DesktopPlan::Run { pause_ms, script },
        Err(e) => DesktopPlan::Done(e),
    }
}

fn is_word(a: &Vec<char>, lit: &str) -> (r: bool)
    ensures
        r == (a@ == lit@),
{
    let l = chars_of(lit);
    same_chars(a, &l)
}

/// Decides a desktop request.
pub fn execute_desktop(p: &DesktopParams) -> (r: DesktopPlan)
    requires
        byte_len(p.text@) <= usize::MAX,
    ensures
        desktop_planned(r, *p),
{
    let a = chars_of(p.action.as_str());
    if a.len() == 0 {
        return DesktopPlan::Done(input_missing("desktop action is required"));
    }
    let pause_ms = if p.delay > MAX_PAUSE_MS { MAX_PAUSE_MS } else { p.delay };
    let target = p.target.as_str();
    if is_word(&a, "list_windows") {
        DesktopPlan::Run { pause_ms, script: desktop_list_windows() }
    } else if is_word(&a, "focus_window") {
        run_or_fail(pause_ms, desktop_focus_window(target))
    } else if is_word(&a, "open_app") {
        run_or_fail(pause_ms, desktop_open_app(target))
    } else if is_word(&a, "send_keys") || is_word(&a, "key_combo") {
        run_or_fail(pause_ms, desktop_send_keys(p.text.as_str()))
    } else if is_word(&a, "type_text") {
        run_or_fail(pause_ms, desktop_type_text(p.text.as_str()))
    } else if is_word(&a, "click") {
        DesktopPlan::Run { pause_ms, script: desktop_click(p.x, p.y, p.button.as_str()) }
    } else if is_word(&a, "screenshot") {
        DesktopPlan::Capture { pause_ms, target: p.target.clone() }
    } else if is_word(&a, "read_screen") {
        DesktopPlan::ReadScreen { pause_ms, target: p.target.clone() }
    } else if is_word(&a, "read_window_text") {
        run_or_fail(pause_ms, desktop_read_window_text(target))
    } else if is_word(&a, "get_clipboard") {
        DesktopPlan::Run { pause_ms, script: desktop_get_clipboard() }
    } else if is_word(&a, "wait") {
        let ms = if !target.is_empty() {
            match parse_u64(target) {
                Some(n) => n,
                None => DEFAULT_WAIT_MS,
            }
        } else if p.delay > 0 {
            p.delay
        } else {
            DEFAULT_WAIT_MS
        };
        DesktopPlan::Wait { ms }
    } else {
        let out = string_of("Unknown desktop action: ").concat(p.action.as_str());
        DesktopPlan::Done(ActionResult::err(out, safe_verdict()))
    }
}

/// The answer to a `wait` of `ms` milliseconds.
pub fn waited(ms: u64) -> (r: ActionResult)
    ensures
        r.success,
        is_safe_verdict(r.safety),
        r.output@ == "WAITED: "@ + decimal(ms as nat) + "ms"@,
{
    let d = decimal_string(ms);
    ActionResult::ok(string_of("WAITED: ").concat(d.as_str()).concat("ms"), safe_verdict())
}

// ─── Packaging script output ──────────────────────────────────────

/// A script's output: standard output, with error output after a
/// `[STDERR] ` marker when there is any.
pub open spec fn script_output(stdout: Seq<char>, stderr: Seq<char>) -> Seq<char> {
    if stderr.len() == 0 {
        stdout
    } else if stdout.len() == 0 {
        "[STDERR] "@ + stderr
    } else {
        stdout + "\n[STDERR] "@ + stderr
    }
}

/// `out` is `text` cut to `budget` bytes with a `...[truncated]` marker
/// when it is longer.
pub open spec fn cut_with_note(out: Seq<char>, text: Seq<char>, budget: nat) -> bool {
    if byte_len(text) <= budget {
        out == text
    } else {
        out == byte_prefix(text, budget) + "...[truncated]"@
    }
}

/// Packages what a desktop script printed, or why it could not run.
pub fn finish_script(outcome: Result<(String, String), String>) -> (r: ActionResult)
    requires
        outcome matches Ok(o) ==> byte_len(script_output(o.0@, o.1@)) <= usize::MAX,
    ensures
        is_safe_verdict(r.safety),
        outcome matches Ok(o) ==> r.success && cut_with_note(
            r.output@,
            script_output(o.0@, o.1@),
            SCRIPT_BUDGET as nat,
        ),
        outcome matches Err(e) ==> !r.success && r.output@ == "PowerShell failed: "@ + e@,
{
    match outcome {
        Ok((stdout, stderr)) => {
            let combined = if stderr.as_str().is_empty() {
                stdout
            } else if stdout.as_str().is_empty() {
                string_of("[STDERR] ").concat(stderr.as_str())
            } else {
                stdout.concat("\n[STDERR] ").concat(stderr.as_str())
            };
            let n = combined.as_str().len();
            let text = if n <= SCRIPT_BUDGET {
                combined
            } else {
                string_of(prefix_within(combined.as_str(), SCRIPT_BUDGET)).concat("...[truncated]")
            };
            ActionResult::ok(text, safe_verdict())
        },
        Err(e) => ActionResult::err(
            string_of("PowerShell failed: ").concat(e.as_str()),
            safe_verdict(),
        ),
    }
}

/// The character of the six-bit value `v` in the standard base64 alphabet.
pub open spec fn base64_digit(v: nat) -> char {
    if v < 26 {
        (65 + v) as char
    } else if v < 52 {
        (71 + v) as char
    } else if v < 62 {
        (v - 4) as char
    } else if v == 62 {
        '+'
    } else {
        '/'
    }
}

/// The standard, padded base64 text of `b`: each group of three bytes as
/// four characters, a last group of one or two bytes padded with `=`.
pub open spec fn base64_of(b: Seq<u8>) -> Seq<char>
    decreases b.len(),
{
    if b.len() == 0 {
        Seq::empty()
    } else if b.len() == 1 {
        seq![base64_digit(b[0] as nat / 4), base64_digit((b[0] as nat % 4) * 16), '=', '=']
    } else if b.len() == 2 {
        seq![
            base64_digit(b[0] as nat / 4),
            base64_digit((b[0] as nat % 4) * 16 + b[1] as nat / 16),
            base64_digit((b[1] as nat % 16) * 4),
            '=',
        ]
    } else {
        seq![
            base64_digit(b[0] as nat / 4),
            base64_digit((b[0] as nat % 4) * 16 + b[1] as nat / 16),
            base64_digit((b[1] as nat % 16) * 4 + b[2] as nat / 64),
            base64_digit(b[2] as nat % 64),
        ] + base64_of(b.subrange(3, b.len() as int))
    }
}

/// Relies on `base64::Engine::encode` with the standard engine (standard
/// alphabet, padded).
#[verifier::external_body]
fn encode_base64(bytes: &Vec<u8>) -> (r: String)
    ensures
        r@ == base64_of(bytes@),
{
    base64::Engine::encode(&base64::engine::general_purpose::STANDARD, bytes)
}

/// The report of a capture: the capture script's trimmed output, the
/// image's file name and the image itself in base64, as a JSON object.
pub open spec fn capture_report(output: Seq<char>, filename: Seq<char>, image: Seq<u8>) -> Seq<char> {
    "{\"filename\":"@ + json_quoted(filename) + ",\"image_base64\":"@ + json_quoted(
        base64_of(image),
    ) + ",\"output\":"@ + json_quoted(trim_of(output)) + "}"@
}

/// Packages a capture: the script's result when it failed or the image
/// could not be read back, else the capture report.
pub fn capture_result(shot: ActionResult, filename: &str, image: Option<Vec<u8>>) -> (r: ActionResult)
    ensures
        !shot.success ==> r == shot,
        shot.success && image is None ==> r == shot,
        shot.success && image is Some ==> r.success && is_safe_verdict(r.safety) && r.output@
            == capture_report(shot.output@, filename@, image->0@),
{
    if !shot.success {
        return shot;
    }
    let bytes = match image {
        Some(b) => b,
        None => return shot,
    };
    let encoded = encode_base64(&bytes);
    let out = trimmed(shot.output.as_str());
    let qf = quote_json(filename);
    let qi = quote_json(encoded.as_str());
    let qo = quote_json(out.as_str());
    let report = string_of("{\"filename\":").concat(qf.as_str()).concat(",\"image_base64\":").concat(
        qi.as_str(),
    ).concat(",\"output\":").concat(qo.as_str()).concat("}");
    ActionResult::ok(report, safe_verdict())
}

/// Packages a read of the screen: the capture's failure, or the capture's
/// path followed by the recognized text.
pub fn read_screen_result(shot: ActionResult, path: &str, ocr: ActionResult) -> (r: ActionResult)
    ensures
        !shot.success ==> r == shot,
        shot.success ==> r.success && is_safe_verdict(r.safety) && r.output@ == "screenshot="@
            + escaped_path(path@) + "\ntext:"@ + ocr.output@,
{
    if !shot.success {
        return shot;
    }
    let p = replace_chars(path, '\\', "\\\\", '\\', "\\\\");
    let out = string_of("screenshot=").concat(p.as_str()).concat("\ntext:").concat(
        ocr.output.as_str(),
    );
    ActionResult::ok(out, safe_verdict())
}

} // verus!
