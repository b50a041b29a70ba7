//! The action dispatcher: turns a request into either an immediate result
//! (input error, policy denial, confirmation pending) or an operation that
//! the host performs, and packages what the host reports into a result.

use vstd::prelude::*;
use crate::safety::{
    path_protected, reading_ops, file_reason_for, shell_reason, kill_reason,
    check_file_kind, check_process_kill, check_shell_command, file_gate_for, kill_gate,
    shell_gate, Gate, RiskLevel, SafetyVerdict, UserRoots,
};
use crate::text::{chars_of, has_prefix, same_chars, string_of};
use crate::output::{
    byte_len, boundary_at_most, cut_to_budget, decimal, decimal_string, format_size, size_text,
};
use vstd::utf8::encode_utf8;

verus! {

/// One inbound unit of work.
#[derive(Debug, Clone)]
pub struct ActionRequest {
    pub action: String,
    pub path: Option<String>,
    pub command: Option<String>,
    pub content: Option<String>,
    pub process_name: Option<String>,
    pub app_name: Option<String>,
    pub cwd: Option<String>,
    /// A human has already approved a risky operation.
    pub confirmed: bool,
}

/// What the dispatcher reports for one request.
#[derive(Debug, Clone)]
pub struct ActionResult {
    pub success: bool,
    pub output: String,
    pub safety: SafetyVerdict,
}

/// Marker that opens the output of a result that waits for confirmation.
pub open spec fn confirmation_marker() -> Seq<char> {
    "CONFIRMATION REQUIRED: "@
}

/// The result asks for the identical request again, confirmed.
pub open spec fn awaits_confirmation(r: ActionResult) -> bool {
    !r.success && has_prefix(r.output@, confirmation_marker())
}

impl ActionResult {
    /// A result for a denied operation: the verdict's reason is the output.
    pub fn blocked(verdict: SafetyVerdict) -> (r: ActionResult)
        ensures
            !r.success,
            r.output@ == verdict.reason@,
            r.safety == verdict,
    {
        let output = verdict.reason.clone();
        ActionResult { success: false, output, safety: verdict }
    }

    /// A successful result.
    pub fn ok(output: String, verdict: SafetyVerdict) -> (r: ActionResult)
        ensures
            r.success,
            r.output == output,
            r.safety == verdict,
    {
        ActionResult { success: true, output, safety: verdict }
    }

    /// A failed result carrying `error`.
    pub fn err(error: String, verdict: SafetyVerdict) -> (r: ActionResult)
        ensures
            !r.success,
            r.output == error,
            r.safety == verdict,
    {
        ActionResult { success: false, output: error, safety: verdict }
    }

    /// A result that asks for the request again once a human confirmed it.
    pub fn needs_confirm(verdict: SafetyVerdict) -> (r: ActionResult)
        ensures
            awaits_confirmation(r),
            r.output@ == confirmation_marker() + verdict.reason@ + ". Reply 'yes' to proceed."@,
            r.safety == verdict,
    {
        let output = string_of("CONFIRMATION REQUIRED: ").concat(verdict.reason.as_str()).concat(
            ". Reply 'yes' to proceed.",
        );
        proof {
            reveal_strlit("CONFIRMATION REQUIRED: ");
            assert(output@.subrange(0, confirmation_marker().len() as int) =~= confirmation_marker());
        }
        ActionResult { success: false, output, safety: verdict }
    }
}

/// The verdict of requests that need no check: allowed at the lowest level, no reason given.
pub open spec fn is_safe_verdict(v: SafetyVerdict) -> bool {
    v.carries(Gate::Allow(RiskLevel::Safe)) && v.reason@ == Seq::<char>::empty()
}

/// The neutral verdict of requests that need no check.
pub fn safe_verdict() -> (r: SafetyVerdict)
    ensures
        is_safe_verdict(r),
{
    SafetyVerdict::from_gate(Gate::Allow(RiskLevel::Safe), String::new())
}

/// The closed set of actions the dispatcher knows.
#[derive(Debug, Clone, Copy, PartialEq, Eq, Structural)]
pub enum Action {
    ReadFile,
    WriteFile,
    DeleteFile,
    ListDir,
    CreateDir,
    FileExists,
    FileInfo,
    MoveFile,
    CopyFile,
    Shell,
    OpenApp,
    OpenUrl,
    ListProcesses,
    KillProcess,
    SystemInfo,
    DiskUsage,
}

/// The action that the wire name `name` stands for.
pub open spec fn action_named(name: Seq<char>) -> Option<Action> {
    if name == "read_file"@ {
        Some(Action::ReadFile)
    } else if name == "write_file"@ {
        Some(Action::WriteFile)
    } else if name == "delete_file"@ {
        Some(Action::DeleteFile)
    } else if name == "list_dir"@ {
        Some(Action::ListDir)
    } else if name == "create_dir"@ {
        Some(Action::CreateDir)
    } else if name == "file_exists"@ {
        Some(Action::FileExists)
    } else if name == "file_info"@ {
        Some(Action::FileInfo)
    } else if name == "move_file"@ {
        Some(Action::MoveFile)
    } else if name == "copy_file"@ {
        Some(Action::CopyFile)
    } else if name == "shell"@ {
        Some(Action::Shell)
    } else if name == "open_app"@ {
        Some(Action::OpenApp)
    } else if name == "open_url"@ {
        Some(Action::OpenUrl)
    } else if name == "list_processes"@ {
        Some(Action::ListProcesses)
    } else if name == "kill_process"@ {
        Some(Action::KillProcess)
    } else if name == "system_info"@ {
        Some(Action::SystemInfo)
    } else if name == "disk_usage"@ {
        Some(Action::DiskUsage)
    } else {
        None
    }
}

fn is_name(n: &Vec<char>, lit: &str) -> (r: bool)
    ensures
        r == (n@ == lit@),
{
    let l = chars_of(lit);
    same_chars(n, &l)
}

impl Action {
    /// The action with wire name `name`, if it is one of the known set.
    pub fn parse(name: &str) -> (r: Option<Action>)
        ensures
            r == action_named(name@),
    {
        let n = chars_of(name);
        if is_name(&n, "read_file") {
            Some(Action::ReadFile)
        } else if is_name(&n, "write_file") {
            Some(Action::WriteFile)
        } else if is_name(&n, "delete_file") {
            Some(Action::DeleteFile)
        } else if is_name(&n, "list_dir") {
            Some(Action::ListDir)
        } else if is_name(&n, "create_dir") {
            Some(Action::CreateDir)
        } else if is_name(&n, "file_exists") {
            Some(Action::FileExists)
        } else if is_name(&n, "file_info") {
            Some(Action::FileInfo)
        } else if is_name(&n, "move_file") {
            Some(Action::MoveFile)
        } else if is_name(&n, "copy_file") {
            Some(Action::CopyFile)
        } else if is_name(&n, "shell") {
            Some(Action::Shell)
        } else if is_name(&n, "open_app") {
            Some(Action::OpenApp)
        } else if is_name(&n, "open_url") {
            Some(Action::OpenUrl)
        } else if is_name(&n, "list_processes") {
            Some(Action::ListProcesses)
        } else if is_name(&n, "kill_process") {
            Some(Action::KillProcess)
        } else if is_name(&n, "system_info") {
            Some(Action::SystemInfo)
        } else if is_name(&n, "disk_usage") {
            Some(Action::DiskUsage)
        } else {
            None
        }
    }
}

/// An operation the host performs once the policy let it through.
#[derive(Debug, Clone)]
pub enum Operation {
    ReadFile { path: String },
    WriteFile { path: String, content: String },
    DeleteFile { path: String },
    ListDir { path: String },
    CreateDir { path: String },
    FileExists { path: String },
    FileInfo { path: String },
    MoveFile { from: String, to: String },
    CopyFile { from: String, to: String },
    Shell { command: String, cwd: Option<String> },
    OpenApp { app: String },
    OpenUrl { url: String },
    ListProcesses,
    KillProcess { name: String },
    SystemInfo,
    DiskUsage,
}

/// What the dispatcher decided for a request.
#[derive(Debug, Clone)]
pub enum Dispatch {
    /// The request is answered without any side effect.
    Done(ActionResult),
    /// The host performs the operation; the verdict justifies it.
    Perform(Operation, SafetyVerdict),
}

/// How a request is handled.
#[derive(Debug, Clone, Copy, PartialEq, Eq, Structural)]
pub enum Step {
    /// The action name is not one of the known set.
    Unknown,
    /// A field the action needs is absent.
    MissingInput,
    /// The policy forbids the operation.
    Denied,
    /// The operation waits for a human's confirmation.
    AskFirst,
    /// The operation is performed.
    Run,
}

/// The fields that action `a` needs are present in `req`.
pub open spec fn has_fields(a: Action, req: ActionRequest) -> bool {
    match a {
        Action::ReadFile | Action::DeleteFile | Action::CreateDir | Action::FileExists
        | Action::FileInfo | Action::OpenUrl => req.path is Some,
        Action::WriteFile | Action::MoveFile | Action::CopyFile => req.path is Some
            && req.content is Some,
        Action::Shell => req.command is Some,
        Action::OpenApp => req.app_name is Some,
        Action::KillProcess => req.process_name is Some,
        Action::ListDir | Action::ListProcesses | Action::SystemInfo | Action::DiskUsage => true,
    }
}

/// The directory that `list_dir` lists: the given path, or the current one.
pub open spec fn listed_dir(req: ActionRequest) -> Seq<char> {
    match req.path {
        Some(p) => p@,
        None => "."@,
    }
}

/// The decision on action `a` for `req`, whose fields are present. A move
/// is checked at its source and at its destination; a copy at its destination.
pub open spec fn action_gate(a: Action, req: ActionRequest, roots: UserRoots) -> Gate {
    match a {
        Action::ReadFile => file_gate_for("read"@, req.path->0@, roots),
        Action::WriteFile => file_gate_for("write"@, req.path->0@, roots),
        Action::DeleteFile => file_gate_for("delete"@, req.path->0@, roots),
        Action::ListDir => file_gate_for("list"@, listed_dir(req), roots),
        Action::CreateDir => file_gate_for("create"@, req.path->0@, roots),
        Action::MoveFile => {
            let from = file_gate_for("move"@, req.path->0@, roots);
            if from is Block || file_gate_for("write"@, req.content->0@, roots) is Block {
                Gate::Block
            } else {
                from
            }
        },
        Action::CopyFile => file_gate_for("copy"@, req.content->0@, roots),
        Action::Shell => shell_gate(req.command->0@),
        Action::OpenApp => Gate::Allow(RiskLevel::Medium),
        Action::OpenUrl => Gate::Allow(RiskLevel::Low),
        Action::KillProcess => kill_gate(req.process_name->0@),
        Action::FileExists | Action::FileInfo | Action::ListProcesses | Action::SystemInfo
        | Action::DiskUsage => Gate::Allow(RiskLevel::Safe),
    }
}

/// How `req` is handled once its action is known to be `a`: missing
/// fields first, then a denial, then a pending confirmation when it is not
/// confirmed yet.
pub open spec fn step_for(a: Action, req: ActionRequest, roots: UserRoots) -> Step {
    if !has_fields(a, req) {
        Step::MissingInput
    } else {
        let g = action_gate(a, req, roots);
        if g is Block {
            Step::Denied
        } else if g is Confirm && !req.confirmed {
            Step::AskFirst
        } else {
            Step::Run
        }
    }
}

/// How `req` is handled.
pub open spec fn step(req: ActionRequest, roots: UserRoots) -> Step {
    match action_named(req.action@) {
        None => Step::Unknown,
        Some(a) => step_for(a, req, roots),
    }
}

/// `op` is the operation that action `a` performs for `req`.
pub open spec fn performs(op: Operation, a: Action, req: ActionRequest) -> bool {
    match a {
        Action::ReadFile => op == Operation::ReadFile { path: req.path->0 },
        Action::WriteFile => op == Operation::WriteFile {
            path: req.path->0,
            content: req.content->0,
        },
        Action::DeleteFile => op == Operation::DeleteFile { path: req.path->0 },
        Action::ListDir => op matches Operation::ListDir { path } && path@ == listed_dir(req),
        Action::CreateDir => op == Operation::CreateDir { path: req.path->0 },
        Action::FileExists => op == Operation::FileExists { path: req.path->0 },
        Action::FileInfo => op == Operation::FileInfo { path: req.path->0 },
        Action::MoveFile => op == Operation::MoveFile { from: req.path->0, to: req.content->0 },
        Action::CopyFile => op == Operation::CopyFile { from: req.path->0, to: req.content->0 },
        Action::Shell => op == Operation::Shell { command: req.command->0, cwd: req.cwd },
        Action::OpenApp => op == Operation::OpenApp { app: req.app_name->0 },
        Action::OpenUrl => op == Operation::OpenUrl { url: req.path->0 },
        Action::ListProcesses => op == Operation::ListProcesses,
        Action::KillProcess => op == Operation::KillProcess { name: req.process_name->0 },
        Action::SystemInfo => op == Operation::SystemInfo,
        Action::DiskUsage => op == Operation::DiskUsage,
    }
}

/// The justification of the verdict on action `a` for `req`, whose fields
/// are present: the classifier's reason for the checked target (for a move,
/// the reason of the end that blocks, else the source's), and the fixed
/// reasons of applications and addresses.
pub open spec fn action_reason(a: Action, req: ActionRequest, roots: UserRoots) -> Seq<char> {
    match a {
        Action::ReadFile => file_reason_for("read"@, "read"@, req.path->0@, roots),
        Action::WriteFile => file_reason_for("write"@, "write"@, req.path->0@, roots),
        Action::DeleteFile => file_reason_for("delete"@, "delete"@, req.path->0@, roots),
        Action::ListDir => file_reason_for("list"@, "list"@, listed_dir(req), roots),
        Action::CreateDir => file_reason_for("create"@, "create"@, req.path->0@, roots),
        Action::MoveFile => if file_gate_for("move"@, req.path->0@, roots) is Block {
            file_reason_for("move"@, "move"@, req.path->0@, roots)
        } else if file_gate_for("write"@, req.content->0@, roots) is Block {
            file_reason_for("write"@, "write"@, req.content->0@, roots)
        } else {
            file_reason_for("move"@, "move"@, req.path->0@, roots)
        },
        Action::CopyFile => file_reason_for("copy"@, "copy"@, req.content->0@, roots),
        Action::Shell => shell_reason(req.command->0@),
        Action::OpenApp => "Opening application: "@ + req.app_name->0@,
        Action::OpenUrl => "Opening URL in default browser"@,
        Action::KillProcess => kill_reason(req.process_name->0@),
        Action::FileExists | Action::FileInfo | Action::ListProcesses | Action::SystemInfo
        | Action::DiskUsage => Seq::empty(),
    }
}

/// The message for action `a` when `req` lacks a field it needs.
pub open spec fn missing_message(a: Action, req: ActionRequest) -> Seq<char> {
    match a {
        Action::ReadFile | Action::DeleteFile | Action::CreateDir | Action::FileExists
        | Action::FileInfo => "path is required"@,
        Action::WriteFile => if req.path is None {
            "path is required"@
        } else {
            "content is required"@
        },
        Action::MoveFile | Action::CopyFile => if req.path is None {
            "path (source) is required"@
        } else {
            "content (destination) is required"@
        },
        Action::Shell => "command is required"@,
        Action::OpenApp => "app_name is required"@,
        Action::OpenUrl => "path (URL) is required"@,
        Action::KillProcess => "process_name is required"@,
        Action::ListDir | Action::ListProcesses | Action::SystemInfo | Action::DiskUsage => Seq::empty(),
    }
}

/// The text of a result that waits for confirmation of a verdict with `reason`.
pub open spec fn confirmation_text(reason: Seq<char>) -> Seq<char> {
    confirmation_marker() + reason + ". Reply 'yes' to proceed."@
}

/// What the dispatcher hands back for `req`, whose action is `a`, stated
/// per step: the classifier's verdict, with its reason, in every case it
/// was consulted.
pub open spec fn handled(a: Action, r: Dispatch, req: ActionRequest, roots: UserRoots) -> bool {
    match step_for(a, req, roots) {
        Step::MissingInput => r matches Dispatch::Done(res) && !res.success && is_safe_verdict(
            res.safety,
        ) && res.output@ == missing_message(a, req),
        Step::Denied => r matches Dispatch::Done(res) && !res.success && res.safety.carries(
            Gate::Block,
        ) && res.safety.reason@ == action_reason(a, req, roots) && res.output@
            == res.safety.reason@,
        Step::AskFirst => r matches Dispatch::Done(res) && awaits_confirmation(res)
            && res.safety.carries(action_gate(a, req, roots)) && res.safety.reason@
            == action_reason(a, req, roots) && res.output@ == confirmation_text(
            action_reason(a, req, roots),
        ),
        Step::Run => r matches Dispatch::Perform(op, v) && performs(op, a, req) && v.carries(
            action_gate(a, req, roots),
        ) && v.reason@ == action_reason(a, req, roots),
        Step::Unknown => false,
    }
}

/// What `execute` hands back for `req`.
pub open spec fn dispatched(r: Dispatch, req: ActionRequest, roots: UserRoots) -> bool {
    match action_named(req.action@) {
        None => r matches Dispatch::Done(res) && !res.success && res.safety.carries(Gate::Block)
            && res.safety.reason@ == "Unknown action"@ && res.output@ == "Unknown action: "@
            + req.action@,
        Some(a) => handled(a, r, req, roots),
    }
}

fn missing(message: &str) -> (r: Dispatch)
    ensures
        r matches Dispatch::Done(res) && !res.success && is_safe_verdict(res.safety)
            && res.output@ == message@,
{
    Dispatch::Done(ActionResult::err(string_of(message), safe_verdict()))
}

fn gated(verdict: SafetyVerdict, op: Operation, confirmed: bool) -> (r: Dispatch)
    ensures
        !verdict.allowed ==> (r matches Dispatch::Done(res) && !res.success && res.safety
            == verdict && res.output@ == verdict.reason@),
        verdict.allowed && verdict.requires_confirmation && !confirmed ==> (r matches Dispatch::Done(
            res,
        ) && awaits_confirmation(res) && res.safety == verdict && res.output@
            == confirmation_text(verdict.reason@)),
        verdict.allowed && !(verdict.requires_confirmation && !confirmed) ==> r
            == Dispatch::Perform(op, verdict),
{
    if !verdict.allowed {
        Dispatch::Done(ActionResult::blocked(verdict))
    } else if verdict.requires_confirmation && !confirmed {
        Dispatch::Done(ActionResult::needs_confirm(verdict))
    } else {
        Dispatch::Perform(op, verdict)
    }
}

fn file_check(kind: &str, path: &String, roots: &UserRoots) -> (r: SafetyVerdict)
    ensures
        r.carries(file_gate_for(kind@, path@, *roots)),
        r.reason@ == file_reason_for(kind@, kind@, path@, *roots),
{
    let k = chars_of(kind);
    check_file_kind(&k, kind, path.as_str(), roots)
}

/// Decides what happens to `request`: an immediate result when the action is
/// unknown, a field is missing, the policy denies it or it waits for
/// confirmation; otherwise the operation for the host to perform.
pub fn execute(request: &ActionRequest, roots: &UserRoots) -> (r: Dispatch)
    ensures
        dispatched(r, *request, *roots),
{
    let a = match Action::parse(request.action.as_str()) {
        Some(a) => a,
        None => {
            let output = string_of("Unknown action: ").concat(request.action.as_str());
            let verdict = SafetyVerdict::from_gate(Gate::Block, string_of("Unknown action"));
            return Dispatch::Done(ActionResult::err(output, verdict));
        },
    };
    match a {
        Action::ReadFile => read_file(request, roots),
        Action::WriteFile => write_file(request, roots),
        Action::DeleteFile => delete_file(request, roots),
        Action::ListDir => list_dir(request, roots),
        Action::CreateDir => create_dir(request, roots),
        Action::FileExists => plan_file_exists(request, roots),
        Action::FileInfo => plan_file_info(request, roots),
        Action::MoveFile => move_file(request, roots),
        Action::CopyFile => copy_file(request, roots),
        Action::Shell => run_shell(request, roots),
        Action::OpenApp => open_app(request, roots),
        Action::OpenUrl => open_url(request, roots),
        Action::ListProcesses => list_processes(request, roots),
        Action::KillProcess => kill_process(request, roots),
        Action::SystemInfo => system_info(request, roots),
        Action::DiskUsage => disk_usage(request, roots),
    }
}

fn read_file(request: &ActionRequest, roots: &UserRoots) -> (r: Dispatch)
    ensures
        handled(Action::ReadFile, r, *request, *roots),
{
    let confirmed = request.confirmed;
    match &request.path {
        None => missing("path is required"),
        Some(p) => gated(
            file_check("read", p, roots),
            Operation::ReadFile { path: p.clone() },
            confirmed,
        ),
    }
}

fn write_file(request: &ActionRequest, roots: &UserRoots) -> (r: Dispatch)
    ensures
        handled(Action::WriteFile, r, *request, *roots),
{
    let confirmed = request.confirmed;
    match (&request.path, &request.content) {
        (None, _) => missing("path is required"),
        (Some(_), None) => missing("content is required"),
        (Some(p), Some(c)) => gated(
            file_check("write", p, roots),
            Operation::WriteFile { path: p.clone(), content: c.clone() },
            confirmed,
        ),
    }
}

fn delete_file(request: &ActionRequest, roots: &UserRoots) -> (r: Dispatch)
    ensures
        handled(Action::DeleteFile, r, *request, *roots),
{
    let confirmed = request.confirmed;
    match &request.path {
        None => missing("path is required"),
        Some(p) => gated(
            file_check("delete", p, roots),
            Operation::DeleteFile { path: p.clone() },
            confirmed,
        ),
    }
}

fn list_dir(request: &ActionRequest, roots: &UserRoots) -> (r: Dispatch)
    ensures
        handled(Action::ListDir, r, *request, *roots),
{
    let confirmed = request.confirmed;
    {
        let p = match &request.path {
            Some(p) => p.clone(),
            None => string_of("."),
        };
        let v = file_check("list", &p, roots);
        gated(v, Operation::ListDir { path: p }, confirmed)
    }
}

fn create_dir(request: &ActionRequest, roots: &UserRoots) -> (r: Dispatch)
    ensures
        handled(Action::CreateDir, r, *request, *roots),
{
    let confirmed = request.confirmed;
    match &request.path {
        None => missing("path is required"),
        Some(p) => gated(
            file_check("create", p, roots),
            Operation::CreateDir { path: p.clone() },
            confirmed,
        ),
    }
}

fn plan_file_exists(request: &ActionRequest, roots: &UserRoots) -> (r: Dispatch)
    ensures
        handled(Action::FileExists, r, *request, *roots),
{
    let confirmed = request.confirmed;
    match &request.path {
        None => missing("path is required"),
        Some(p) => gated(safe_verdict(), Operation::FileExists { path: p.clone() }, confirmed),
    }
}

fn plan_file_info(request: &ActionRequest, roots: &UserRoots) -> (r: Dispatch)
    ensures
        handled(Action::FileInfo, r, *request, *roots),
{
    let confirmed = request.confirmed;
    match &request.path {
        None => missing("path is required"),
        Some(p) => gated(safe_verdict(), Operation::FileInfo { path: p.clone() }, confirmed),
    }
}

fn move_file(request: &ActionRequest, roots: &UserRoots) -> (r: Dispatch)
    ensures
        handled(Action::MoveFile, r, *request, *roots),
{
    let confirmed = request.confirmed;
    match (&request.path, &request.content) {
        (None, _) => missing("path (source) is required"),
        (Some(_), None) => missing("content (destination) is required"),
        (Some(from), Some(to)) => {
            let v_from = file_check("move", from, roots);
            let v_to = file_check("write", to, roots);
            if !v_from.allowed {
                return Dispatch::Done(ActionResult::blocked(v_from));
            }
            if !v_to.allowed {
                return Dispatch::Done(ActionResult::blocked(v_to));
            }
            gated(v_from, Operation::MoveFile { from: from.clone(), to: to.clone() }, confirmed)
        },
    }
}

fn copy_file(request: &ActionRequest, roots: &UserRoots) -> (r: Dispatch)
    ensures
        handled(Action::CopyFile, r, *request, *roots),
{
    let confirmed = request.confirmed;
    match (&request.path, &request.content) {
        (None, _) => missing("path (source) is required"),
        (Some(_), None) => missing("content (destination) is required"),
        (Some(from), Some(to)) => gated(
            file_check("copy", to, roots),
            Operation::CopyFile { from: from.clone(), to: to.clone() },
            confirmed,
        ),
    }
}

fn run_shell(request: &ActionRequest, roots: &UserRoots) -> (r: Dispatch)
    ensures
        handled(Action::Shell, r, *request, *roots),
{
    let confirmed = request.confirmed;
    match &request.command {
        None => missing("command is required"),
        Some(c) => gated(
            check_shell_command(c.as_str()),
            Operation::Shell { command: c.clone(), cwd: request.cwd.clone() },
            confirmed,
        ),
    }
}

fn open_app(request: &ActionRequest, roots: &UserRoots) -> (r: Dispatch)
    ensures
        handled(Action::OpenApp, r, *request, *roots),
{
    let confirmed = request.confirmed;
    match &request.app_name {
        None => missing("app_name is required"),
        Some(app) => {
            let reason = string_of("Opening application: ").concat(app.as_str());
            let v = SafetyVerdict::from_gate(Gate::Allow(RiskLevel::Medium), reason);
            gated(v, Operation::OpenApp { app: app.clone() }, confirmed)
        },
    }
}

fn open_url(request: &ActionRequest, roots: &UserRoots) -> (r: Dispatch)
    ensures
        handled(Action::OpenUrl, r, *request, *roots),
{
    let confirmed = request.confirmed;
    match &request.path {
        None => missing("path (URL) is required"),
        Some(url) => {
            let v = SafetyVerdict::from_gate(
                Gate::Allow(RiskLevel::Low),
                string_of("Opening URL in default browser"),
            );
            gated(v, Operation::OpenUrl { url: url.clone() }, confirmed)
        },
    }
}

fn list_processes(request: &ActionRequest, roots: &UserRoots) -> (r: Dispatch)
    ensures
        handled(Action::ListProcesses, r, *request, *roots),
{
    let confirmed = request.confirmed;
    gated(safe_verdict(), Operation::ListProcesses, confirmed)
}

fn kill_process(request: &ActionRequest, roots: &UserRoots) -> (r: Dispatch)
    ensures
        handled(Action::KillProcess, r, *request, *roots),
{
    let confirmed = request.confirmed;
    match &request.process_name {
        None => missing("process_name is required"),
        Some(n) => gated(
            check_process_kill(n.as_str()),
            Operation::KillProcess { name: n.clone() },
            confirmed,
        ),
    }
}

fn system_info(request: &ActionRequest, roots: &UserRoots) -> (r: Dispatch)
    ensures
        handled(Action::SystemInfo, r, *request, *roots),
{
    let confirmed = request.confirmed;
    gated(safe_verdict(), Operation::SystemInfo, confirmed)
}

fn disk_usage(request: &ActionRequest, roots: &UserRoots) -> (r: Dispatch)
    ensures
        handled(Action::DiskUsage, r, *request, *roots),
{
    let confirmed = request.confirmed;
    gated(safe_verdict(), Operation::DiskUsage, confirmed)
}
/// The request `req` with its confirmation flag set to `confirmed`.
pub open spec fn with_confirmation(req: ActionRequest, confirmed: bool) -> ActionRequest {
    ActionRequest { confirmed, ..req }
}

/// Submitting a request that waits for confirmation, unconfirmed, any
/// number of times gives a confirmation request each time, with the same
/// decision and no operation; submitting it confirmed then hands over
/// exactly the requested operation, once.
pub proof fn lemma_confirmation_round_trip(
    req: ActionRequest,
    roots: UserRoots,
    first: Dispatch,
    second: Dispatch,
    third: Dispatch,
)
    requires
        !req.confirmed,
        step(req, roots) == Step::AskFirst,
        dispatched(first, req, roots),
        dispatched(second, req, roots),
        dispatched(third, with_confirmation(req, true), roots),
    ensures
        first matches Dispatch::Done(a) && awaits_confirmation(a),
        second matches Dispatch::Done(b) && awaits_confirmation(b),
        first->Done_0.safety.carries(action_gate(action_named(req.action@)->0, req, roots)),
        second->Done_0.safety.carries(action_gate(action_named(req.action@)->0, req, roots)),
        first->Done_0.output@ == second->Done_0.output@,
        first->Done_0.safety.reason@ == second->Done_0.safety.reason@,
        first->Done_0.output@ == confirmation_text(first->Done_0.safety.reason@),
        third matches Dispatch::Perform(op, v) && performs(op, action_named(req.action@)->0, req)
            && v.carries(action_gate(action_named(req.action@)->0, req, roots)) && v.reason@
            == first->Done_0.safety.reason@,
{
    let a = action_named(req.action@)->0;
    let c = with_confirmation(req, true);
    assert(c.action == req.action);
    assert(has_fields(a, c) == has_fields(a, req));
    assert(action_gate(a, c, roots) == action_gate(a, req, roots));
    assert(action_reason(a, c, roots) == action_reason(a, req, roots));
    assert(performs(third->Perform_0, a, c) ==> performs(third->Perform_0, a, req));
}

/// A denied request stays denied whatever its confirmation flag says.
pub proof fn lemma_denial_ignores_confirmation(req: ActionRequest, roots: UserRoots, confirmed: bool)
    requires
        step(req, roots) == Step::Denied,
    ensures
        step(with_confirmation(req, confirmed), roots) == Step::Denied,
{
    let c = with_confirmation(req, confirmed);
    let a = action_named(req.action@)->0;
    assert(has_fields(a, c) == has_fields(a, req));
    assert(action_gate(a, c, roots) == action_gate(a, req, roots));
}

// ─── Packaging what the host reports ──────────────────────────────

/// Byte budget of file contents returned by `read_file`.
pub const READ_BUDGET: usize = 50000;

/// Byte budget of command output returned by `shell`.
pub const SHELL_BUDGET: usize = 30000;

/// `out` is `text` capped at `budget` bytes, with the truncation marker
/// `"..." + before + <byte length> + after` when it had to be cut.
pub open spec fn capped_with_marker(
    out: Seq<char>,
    text: Seq<char>,
    budget: nat,
    before: Seq<char>,
    after: Seq<char>,
) -> bool {
    if byte_len(text) <= budget {
        out == text
    } else {
        exists|head: Seq<char>|
            encode_utf8(head) == encode_utf8(text).subrange(
                0,
                boundary_at_most(encode_utf8(text), budget) as int,
            ) && out == head + "..."@ + before + decimal(byte_len(text)) + after
    }
}

fn cap_with_marker(text: String, budget: usize, before: &str, after: &str) -> (r: String)
    requires
        byte_len(text@) <= usize::MAX,
    ensures
        capped_with_marker(r@, text@, budget as nat, before@, after@),
{
    match cut_to_budget(text.as_str(), budget) {
        None => text,
        Some(head) => {
            let total = text.as_str().len();
            let mut out = string_of(head).concat("...").concat(before);
            let n = decimal_string(total as u64);
            out = out.concat(n.as_str()).concat(after);
            assert(out@ == head@ + "..."@ + before@ + decimal(byte_len(text@)) + after@);
            out
        },
    }
}

/// `r` is a failure carrying `prefix` followed by the host's error `e`.
pub open spec fn failed_with(r: ActionResult, verdict: SafetyVerdict, prefix: Seq<char>, e: Seq<char>) -> bool {
    !r.success && r.output@ == prefix + e && r.safety == verdict
}

/// Packages the outcome of reading a file: its contents, capped at
/// `READ_BUDGET` bytes with a note of the full size.
pub fn finish_read(verdict: SafetyVerdict, outcome: Result<String, String>) -> (r: ActionResult)
    requires
        outcome matches Ok(c) ==> byte_len(c@) <= usize::MAX,
    ensures
        outcome matches Ok(c) ==> r.success && r.safety == verdict && capped_with_marker(
            r.output@,
            c@,
            READ_BUDGET as nat,
            "\n\n[Truncated: "@,
            " bytes total]"@,
        ),
        outcome matches Err(e) ==> failed_with(r, verdict, "Failed to read: "@, e@),
{
    match outcome {
        Ok(content) => {
            let text = cap_with_marker(content, READ_BUDGET, "\n\n[Truncated: ", " bytes total]");
            ActionResult::ok(text, verdict)
        },
        Err(e) => ActionResult::err(string_of("Failed to read: ").concat(e.as_str()), verdict),
    }
}

/// Packages the outcome of writing `content` to `path`.
pub fn finish_write(verdict: SafetyVerdict, path: &str, content: &str, outcome: Result<(), String>) -> (r: ActionResult)
    requires
        byte_len(content@) <= usize::MAX,
    ensures
        outcome is Ok ==> r.success && r.safety == verdict && r.output@ == "Written "@ + decimal(
            byte_len(content@),
        ) + " bytes to "@ + path@,
        outcome matches Err(e) ==> failed_with(r, verdict, "Failed to write: "@, e@),
{
    match outcome {
        Ok(()) => {
            let n = decimal_string(content.len() as u64);
            let out = string_of("Written ").concat(n.as_str()).concat(" bytes to ").concat(path);
            ActionResult::ok(out, verdict)
        },
        Err(e) => ActionResult::err(string_of("Failed to write: ").concat(e.as_str()), verdict),
    }
}

/// Packages the outcome of deleting `path`.
pub fn finish_delete(verdict: SafetyVerdict, path: &str, outcome: Result<(), String>) -> (r: ActionResult)
    ensures
        outcome is Ok ==> r.success && r.safety == verdict && r.output@ == "Deleted: "@ + path@,
        outcome matches Err(e) ==> failed_with(r, verdict, "Failed to delete: "@, e@),
{
    match outcome {
        Ok(()) => ActionResult::ok(string_of("Deleted: ").concat(path), verdict),
        Err(e) => ActionResult::err(string_of("Failed to delete: ").concat(e.as_str()), verdict),
    }
}

/// Packages the outcome of creating the directory `path`.
pub fn finish_create_dir(verdict: SafetyVerdict, path: &str, outcome: Result<(), String>) -> (r: ActionResult)
    ensures
        outcome is Ok ==> r.success && r.safety == verdict && r.output@ == "Created directory: "@
            + path@,
        outcome matches Err(e) ==> failed_with(r, verdict, "Failed to create: "@, e@),
{
    match outcome {
        Ok(()) => ActionResult::ok(string_of("Created directory: ").concat(path), verdict),
        Err(e) => ActionResult::err(string_of("Failed to create: ").concat(e.as_str()), verdict),
    }
}

/// Packages the outcome of moving `from` to `to`.
pub fn finish_move(verdict: SafetyVerdict, from: &str, to: &str, outcome: Result<(), String>) -> (r: ActionResult)
    ensures
        outcome is Ok ==> r.success && r.safety == verdict && r.output@ == "Moved "@ + from@
            + " → "@ + to@,
        outcome matches Err(e) ==> failed_with(r, verdict, "Failed to move: "@, e@),
{
    match outcome {
        Ok(()) => ActionResult::ok(
            string_of("Moved ").concat(from).concat(" → ").concat(to),
            verdict,
        ),
        Err(e) => ActionResult::err(string_of("Failed to move: ").concat(e.as_str()), verdict),
    }
}

/// Packages the outcome of copying `from` to `to`, which copied `Ok(bytes)`.
pub fn finish_copy(verdict: SafetyVerdict, from: &str, to: &str, outcome: Result<u64, String>) -> (r: ActionResult)
    ensures
        outcome matches Ok(n) ==> r.success && r.safety == verdict && r.output@ == "Copied "@
            + from@ + " → "@ + to@ + " ("@ + decimal(n as nat) + " bytes)"@,
        outcome matches Err(e) ==> failed_with(r, verdict, "Failed to copy: "@, e@),
{
    match outcome {
        Ok(n) => {
            let d = decimal_string(n);
            let out = string_of("Copied ").concat(from).concat(" → ").concat(to).concat(
                " (",
            ).concat(d.as_str()).concat(" bytes)");
            ActionResult::ok(out, verdict)
        },
        Err(e) => ActionResult::err(string_of("Failed to copy: ").concat(e.as_str()), verdict),
    }
}

/// Answers whether `path` exists.
pub fn file_exists(path: &str, exists: bool) -> (r: ActionResult)
    ensures
        r.success,
        is_safe_verdict(r.safety),
        r.output@ == path@ + ": "@ + (if exists { "exists"@ } else { "not found"@ }),
{
    let out = string_of(path).concat(": ").concat(if exists { "exists" } else { "not found" });
    ActionResult::ok(out, safe_verdict())
}

/// What the host found out about a file.
#[derive(Debug, Clone)]
pub struct FileFacts {
    pub is_dir: bool,
    pub size: u64,
    pub readonly: bool,
    /// The modification time, as the host renders it.
    pub modified: String,
}

/// The description of a file that `file_info` returns.
pub open spec fn info_text(path: Seq<char>, f: FileFacts) -> Seq<char> {
    "Path: "@ + path + "\nType: "@ + (if f.is_dir { "Directory"@ } else { "File"@ }) + "\nSize: "@
        + size_text(f.size as nat) + "\nReadonly: "@ + (if f.readonly { "true"@ } else { "false"@ })
        + "\nModified: "@ + f.modified@
}

/// Packages what the host found out about `path`.
pub fn file_info(path: &str, outcome: Result<FileFacts, String>) -> (r: ActionResult)
    ensures
        is_safe_verdict(r.safety),
        outcome matches Ok(f) ==> r.success && r.output@ == info_text(path@, f),
        outcome matches Err(e) ==> !r.success && r.output@ == "Failed: "@ + e@,
{
    match outcome {
        Ok(f) => {
            let size = format_size(f.size);
            let out = string_of("Path: ").concat(path).concat("\nType: ").concat(
                if f.is_dir { "Directory" } else { "File" },
            ).concat("\nSize: ").concat(size.as_str()).concat("\nReadonly: ").concat(
                if f.readonly { "true" } else { "false" },
            ).concat("\nModified: ").concat(f.modified.as_str());
            ActionResult::ok(out, safe_verdict())
        },
        Err(e) => ActionResult::err(string_of("Failed: ").concat(e.as_str()), safe_verdict()),
    }
}

/// One entry of a directory listing.
#[derive(Debug, Clone)]
pub struct DirEntry {
    pub name: String,
    pub is_dir: bool,
    pub size: u64,
}

/// The line that lists one directory entry.
pub open spec fn entry_line(e: DirEntry) -> Seq<char> {
    if e.is_dir {
        "DIR  - "@ + e.name@
    } else {
        "FILE "@ + size_text(e.size as nat) + " "@ + e.name@
    }
}

/// The lines of `entries`, joined by newlines.
pub open spec fn listing(entries: Seq<DirEntry>) -> Seq<char>
    decreases entries.len(),
{
    if entries.len() == 0 {
        Seq::empty()
    } else if entries.len() == 1 {
        entry_line(entries[0])
    } else {
        listing(entries.drop_last()) + "\n"@ + entry_line(entries.last())
    }
}

fn entry_text(e: &DirEntry) -> (r: String)
    ensures
        r@ == entry_line(*e),
{
    if e.is_dir {
        string_of("DIR  - ").concat(e.name.as_str())
    } else {
        let size = format_size(e.size);
        string_of("FILE ").concat(size.as_str()).concat(" ").concat(e.name.as_str())
    }
}

/// Packages a directory listing.
pub fn finish_list(verdict: SafetyVerdict, outcome: Result<Vec<DirEntry>, String>) -> (r: ActionResult)
    ensures
        outcome matches Ok(v) ==> r.success && r.safety == verdict && r.output@ == (if v@.len()
            == 0 {
            "(empty directory)"@
        } else {
            listing(v@)
        }),
        outcome matches Err(e) ==> failed_with(r, verdict, "Failed to list: "@, e@),
{
    match outcome {
        Ok(entries) => {
            if entries.len() == 0 {
                return ActionResult::ok(string_of("(empty directory)"), verdict);
            }
            let mut out = String::new();
            let mut i: usize = 0;
            while i < entries.len()
                invariant
                    i <= entries.len(),
                    out@ == listing(entries@.take(i as int)),
                decreases entries.len() - i,
            {
                let line = entry_text(&entries[i]);
                proof {
                    let t = entries@.take(i + 1);
                    assert(t.drop_last() =~= entries@.take(i as int));
                    assert(t.last() == entries@[i as int]);
                }
                if i > 0 {
                    out = out.concat("\n");
                }
                out = out.concat(line.as_str());
                proof {
                    if i == 0 {
                        assert(out@ =~= listing(entries@.take(1)));
                    }
                }
                i = i + 1;
            }
            assert(entries@.take(entries.len() as int) =~= entries@);
            ActionResult::ok(out, verdict)
        },
        Err(e) => ActionResult::err(string_of("Failed to list: ").concat(e.as_str()), verdict),
    }
}

/// Standard output and standard error combined: error output, when there
/// is any, follows a `[STDERR]` line.
pub open spec fn combined_output(stdout: Seq<char>, stderr: Seq<char>) -> Seq<char> {
    if stderr.len() == 0 {
        stdout
    } else {
        stdout + "\n[STDERR]\n"@ + stderr
    }
}

/// Packages the output of a shell command, capped at `SHELL_BUDGET` bytes.
pub fn finish_shell(verdict: SafetyVerdict, outcome: Result<(String, String), String>) -> (r: ActionResult)
    requires
        outcome matches Ok(o) ==> byte_len(combined_output(o.0@, o.1@)) <= usize::MAX,
    ensures
        outcome matches Ok(o) ==> r.success && r.safety == verdict && capped_with_marker(
            r.output@,
            combined_output(o.0@, o.1@),
            SHELL_BUDGET as nat,
            "\n[Truncated: "@,
            " chars]"@,
        ),
        outcome matches Err(e) ==> failed_with(r, verdict, "Failed to execute: "@, e@),
{
    match outcome {
        Ok((stdout, stderr)) => {
            let combined = if stderr.as_str().is_empty() {
                stdout
            } else {
                stdout.concat("\n[STDERR]\n").concat(stderr.as_str())
            };
            let text = cap_with_marker(combined, SHELL_BUDGET, "\n[Truncated: ", " chars]");
            ActionResult::ok(text, verdict)
        },
        Err(e) => ActionResult::err(string_of("Failed to execute: ").concat(e.as_str()), verdict),
    }
}

/// Packages the outcome of launching application `app`.
pub fn finish_open_app(verdict: SafetyVerdict, app: &str, outcome: Result<(), String>) -> (r: ActionResult)
    ensures
        outcome is Ok ==> r.success && r.safety == verdict && r.output@ == "Launched: "@ + app@,
        outcome matches Err(e) ==> failed_with(r, verdict, "Failed to open "@ + app@ + ": "@, e@),
{
    match outcome {
        Ok(()) => ActionResult::ok(string_of("Launched: ").concat(app), verdict),
        Err(e) => ActionResult::err(
            string_of("Failed to open ").concat(app).concat(": ").concat(e.as_str()),
            verdict,
        ),
    }
}

/// Packages the outcome of opening `url` in the default browser.
pub fn finish_open_url(verdict: SafetyVerdict, url: &str, outcome: Result<(), String>) -> (r: ActionResult)
    ensures
        outcome is Ok ==> r.success && r.safety == verdict && r.output@ == "Opened URL: "@ + url@,
        outcome matches Err(e) ==> !r.success && is_safe_verdict(r.safety) && r.output@
            == "Failed: "@ + e@,
{
    match outcome {
        Ok(()) => ActionResult::ok(string_of("Opened URL: ").concat(url), verdict),
        Err(e) => ActionResult::err(string_of("Failed: ").concat(e.as_str()), safe_verdict()),
    }
}

/// Packages the text a host command printed (process termination, system
/// and disk information).
pub fn finish_text(verdict: SafetyVerdict, outcome: Result<String, String>) -> (r: ActionResult)
    ensures
        outcome matches Ok(t) ==> r.success && r.safety == verdict && r.output == t,
        outcome matches Err(e) ==> failed_with(r, verdict, "Failed: "@, e@),
{
    match outcome {
        Ok(t) => ActionResult::ok(t, verdict),
        Err(e) => ActionResult::err(string_of("Failed: ").concat(e.as_str()), verdict),
    }
}

/// Lines of the process table shown at most.
pub const PROCESS_LINES: usize = 50;

/// The lines `lines`, joined by newlines.
pub open spec fn joined(lines: Seq<String>) -> Seq<char>
    decreases lines.len(),
{
    if lines.len() == 0 {
        Seq::empty()
    } else if lines.len() == 1 {
        lines[0]@
    } else {
        joined(lines.drop_last()) + "\n"@ + lines.last()@
    }
}

/// Packages the process table: its first `PROCESS_LINES` lines under a heading.
pub fn finish_process_list(verdict: SafetyVerdict, outcome: Result<Vec<String>, String>) -> (r: ActionResult)
    ensures
        outcome matches Ok(lines) ==> r.success && r.safety == verdict && r.output@
            == "Top 50 processes:\n"@ + joined(lines@.take(
            if lines.len() > PROCESS_LINES { PROCESS_LINES as int } else { lines.len() as int },
        )),
        outcome matches Err(e) ==> failed_with(r, verdict, "Failed: "@, e@),
{
    match outcome {
        Ok(lines) => {
            let n: usize = if lines.len() > PROCESS_LINES { PROCESS_LINES } else { lines.len() };
            let mut out = String::new();
            let mut i: usize = 0;
            while i < n
                invariant
                    i <= n <= lines.len(),
                    out@ == joined(lines@.take(i as int)),
                decreases n - i,
            {
                proof {
                    let t = lines@.take(i + 1);
                    assert(t.drop_last() =~= lines@.take(i as int));
                    assert(t.last() == lines@[i as int]);
                }
                if i > 0 {
                    out = out.concat("\n");
                }
                out = out.concat(lines[i].as_str());
                proof {
                    if i == 0 {
                        assert(out@ =~= joined(lines@.take(1)));
                    }
                }
                i = i + 1;
            }
            ActionResult::ok(string_of("Top 50 processes:\n").concat(out.as_str()), verdict)
        },
        Err(e) => ActionResult::err(string_of("Failed: ").concat(e.as_str()), verdict),
    }
}

/// None of the kinds the dispatcher writes, deletes or creates with is a read.
proof fn lemma_mutating_kinds_are_not_reads()
    ensures
        !reading_ops().contains("write"@),
        !reading_ops().contains("delete"@),
        !reading_ops().contains("create"@),
{
    reveal_strlit("read");
    reveal_strlit("list");
    reveal_strlit("stat");
    reveal_strlit("exists");
    reveal_strlit("write");
    reveal_strlit("delete");
    reveal_strlit("create");
    assert("write"@.len() == 5 && "exists"@.len() == 6 && "read"@.len() == 4);
    assert("list"@.len() == 4 && "stat"@.len() == 4);
    assert("delete"@[0] != "exists"@[0]);
    assert("create"@[0] != "exists"@[0]);
    assert forall|o: Seq<char>| #[trigger] reading_ops().contains(o) implies o == "read"@ || o
        == "list"@ || o == "stat"@ || o == "exists"@ by {
        let i = choose|i: int| 0 <= i < reading_ops().len() && reading_ops()[i] == o;
        assert(0 <= i < 4);
    }
}

/// A request to write, delete or create at a protected path is denied,
/// whatever its confirmation flag says and however the path is spelled.
pub proof fn lemma_protected_target_denied(req: ActionRequest, roots: UserRoots, confirmed: bool)
    requires
        action_named(req.action@) == Some(Action::WriteFile) || action_named(req.action@) == Some(
            Action::DeleteFile,
        ) || action_named(req.action@) == Some(Action::CreateDir),
        req.path matches Some(p) && path_protected(p@),
        action_named(req.action@) == Some(Action::WriteFile) ==> req.content is Some,
    ensures
        step(req, roots) == Step::Denied,
        step(with_confirmation(req, confirmed), roots) == Step::Denied,
{
    lemma_mutating_kinds_are_not_reads();
    lemma_denial_ignores_confirmation(req, roots, confirmed);
}

} // verus!
