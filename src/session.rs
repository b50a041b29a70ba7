//! What the desktop shell asks of the core besides actions: a safety check
//! without execution, the companion's status, the credentials a pairing
//! yields, and outgoing chat messages.

use vstd::prelude::*;
use crate::channel::{json_quoted, quote_json, CompanionCredentials};
use crate::safety::{
    check_file_operation, check_shell_command, file_gate, shell_gate, Gate, RiskLevel,
    SafetyVerdict, UserRoots,
};
use crate::text::{chars_of, string_of};
use vstd::string::StrSliceExecFns;

verus! {

/// The verdict `check_safety` gives: on the command when there is one,
/// else on operation `action` at the path, else nothing to check.
pub open spec fn safety_gate(
    action: Seq<char>,
    path: Option<String>,
    command: Option<String>,
    roots: UserRoots,
) -> Gate {
    match command {
        Some(c) => shell_gate(c@),
        None => match path {
            Some(p) => file_gate(action, p@, roots),
            None => Gate::Allow(RiskLevel::Safe),
        },
    }
}

/// Checks an operation without performing it.
pub fn check_safety(
    action: &str,
    path: Option<String>,
    command: Option<String>,
    roots: &UserRoots,
) -> (r: SafetyVerdict)
    ensures
        r.carries(safety_gate(action@, path, command, *roots)),
        r.wf(),
{
    match &command {
        Some(c) => check_shell_command(c.as_str()),
        None => match &path {
            Some(p) => check_file_operation(action, p.as_str(), roots),
            None => SafetyVerdict::from_gate(
                Gate::Allow(RiskLevel::Safe),
                string_of("No path or command to check"),
            ),
        },
    }
}

/// What the shell shows about the companion.
#[derive(Debug, Clone)]
pub struct CompanionStatus {
    pub connected: bool,
    pub gateway_url: Option<String>,
    pub companion_id: Option<String>,
    pub auth_token: Option<String>,
    pub safety_active: bool,
    pub version: String,
}

/// The status for the stored credentials `creds`: paired when there are
/// any, with their address, identity and token; the safety layer is always on.
pub fn status_of(creds: Option<CompanionCredentials>, version: String) -> (r: CompanionStatus)
    ensures
        r.connected == creds is Some,
        r.safety_active,
        r.version == version,
        creds matches Some(c) ==> r.gateway_url == Some(c.gateway_url) && r.companion_id == Some(
            c.companion_id,
        ) && r.auth_token == c.auth_token,
        creds is None ==> r.gateway_url is None && r.companion_id is None && r.auth_token is None,
{
    match creds {
        Some(c) => CompanionStatus {
            connected: true,
            gateway_url: Some(c.gateway_url),
            companion_id: Some(c.companion_id),
            auth_token: c.auth_token,
            safety_active: true,
            version,
        },
        None => CompanionStatus {
            connected: false,
            gateway_url: None,
            companion_id: None,
            auth_token: None,
            safety_active: true,
            version,
        },
    }
}

/// A pairing request from the shell.
#[derive(Debug, Clone)]
pub struct PairRequest {
    pub gateway_url: String,
    pub pairing_code: String,
}

/// `s` without its trailing slashes.
pub open spec fn without_trailing_slashes(s: Seq<char>) -> Seq<char>
    decreases s.len(),
{
    if s.len() > 0 && s.last() == '/' {
        without_trailing_slashes(s.drop_last())
    } else {
        s
    }
}

/// `s` without its trailing slashes.
pub fn trim_trailing_slashes(s: &str) -> (r: String)
    ensures
        r@ == without_trailing_slashes(s@),
{
    let v = chars_of(s);
    let mut n: usize = v.len();
    assert(v@.take(n as int) =~= s@);
    while n > 0 && v[n - 1] == '/'
        invariant
            n <= v.len(),
            v@ == s@,
            without_trailing_slashes(v@.take(n as int)) == without_trailing_slashes(s@),
        decreases n,
    {
        assert(v@.take(n as int).drop_last() =~= v@.take(n - 1));
        n = n - 1;
    }
    let r = s.substring_char(0, n);
    assert(r@ =~= v@.take(n as int));
    string_of(r)
}

/// The credentials a successful pairing yields: the gateway address without
/// trailing slashes, the identity (`unknown` when absent), the role (`user`
/// when absent) and the token, if any.
pub open spec fn paired(
    gateway_url: Seq<char>,
    companion_id: Option<String>,
    role: Option<String>,
    auth_token: Option<String>,
    r: CompanionCredentials,
) -> bool {
    &&& r.gateway_url@ == without_trailing_slashes(gateway_url)
    &&& r.companion_id@ == (match companion_id {
        Some(c) => c@,
        None => "unknown"@,
    })
    &&& r.role@ == (match role {
        Some(x) => x@,
        None => "user"@,
    })
    &&& r.auth_token == auth_token
}

/// Builds the credentials from the gateway's answer to a pairing request.
pub fn paired_credentials(
    gateway_url: &str,
    companion_id: Option<String>,
    role: Option<String>,
    auth_token: Option<String>,
) -> (r: CompanionCredentials)
    ensures
        paired(gateway_url@, companion_id, role, auth_token, r),
{
    CompanionCredentials {
        gateway_url: trim_trailing_slashes(gateway_url),
        companion_id: match companion_id {
            Some(c) => c,
            None => string_of("unknown"),
        },
        role: match role {
            Some(x) => x,
            None => string_of("user"),
        },
        auth_token,
    }
}

/// A chat message to the gateway.
#[derive(Debug, Clone)]
pub struct OutgoingMessage {
    pub msg_type: String,
    pub content: String,
    pub session_id: Option<String>,
    pub channel: String,
}

impl OutgoingMessage {
    /// A chat message from the companion channel.
    pub fn chat(content: String, session_id: Option<String>) -> (r: OutgoingMessage)
        ensures
            r.msg_type@ == "chat"@,
            r.content == content,
            r.session_id == session_id,
            r.channel@ == "companion"@,
    {
        OutgoingMessage {
            msg_type: string_of("chat"),
            content,
            session_id,
            channel: string_of("companion"),
        }
    }

    /// The frame text of the message, its fields in declaration order.
    pub open spec fn frame_text(&self) -> Seq<char> {
        "{\"type\":"@ + json_quoted(self.msg_type@) + ",\"content\":"@ + json_quoted(self.content@)
            + ",\"session_id\":"@ + (match self.session_id {
            Some(s) => json_quoted(s@),
            None => "null"@,
        }) + ",\"channel\":"@ + json_quoted(self.channel@) + "}"@
    }

    /// The frame for the message.
    pub fn encode(&self) -> (r: String)
        ensures
            r@ == self.frame_text(),
    {
        let t = quote_json(self.msg_type.as_str());
        let c = quote_json(self.content.as_str());
        let s = match &self.session_id {
            Some(id) => quote_json(id.as_str()),
            None => string_of("null"),
        };
        let ch = quote_json(self.channel.as_str());
        string_of("{\"type\":").concat(t.as_str()).concat(",\"content\":").concat(c.as_str()).concat(
            ",\"session_id\":",
        ).concat(s.as_str()).concat(",\"channel\":").concat(ch.as_str()).concat("}")
    }
}

} // verus!
