//! The gateway control channel: connection states, the single-flight guard
//! over the channel loop, the loop's decisions from event to command, and
//! the frames it exchanges with the gateway.

use vstd::prelude::*;
use crate::actions::{
    action_named, execute, has_fields, ActionRequest, ActionResult, Dispatch, dispatched,
};
use crate::safety::UserRoots;
use crate::text::{chars_of, has_prefix, starts_with, string_of};
use vstd::string::StrSliceExecFns;

verus! {

// ─── Connection state ─────────────────────────────────────────────

/// The state of the one logical connection to the gateway.
#[derive(Debug, Clone, PartialEq, Eq)]
pub enum ConnectionState {
    Disconnected,
    Connecting,
    Connected,
    Authenticated,
    Reconnecting,
    Error(String),
}

impl ConnectionState {
    /// An equal state.
    pub fn copied(&self) -> (r: ConnectionState)
        ensures
            r == *self,
    {
        match self {
            ConnectionState::Disconnected => ConnectionState::Disconnected,
            ConnectionState::Connecting => ConnectionState::Connecting,
            ConnectionState::Connected => ConnectionState::Connected,
            ConnectionState::Authenticated => ConnectionState::Authenticated,
            ConnectionState::Reconnecting => ConnectionState::Reconnecting,
            ConnectionState::Error(e) => ConnectionState::Error(e.clone()),
        }
    }

    /// The transport is up.
    pub open spec fn spec_is_connected(&self) -> bool {
        self is Connected || self is Authenticated
    }

    /// Whether the transport is up.
    pub fn is_connected(&self) -> (r: bool)
        ensures
            r == self.spec_is_connected(),
    {
        match self {
            ConnectionState::Connected | ConnectionState::Authenticated => true,
            _ => false,
        }
    }
}

/// What the companion needs to reach the gateway.
#[derive(Debug, Clone)]
pub struct CompanionCredentials {
    pub gateway_url: String,
    pub companion_id: String,
    pub role: String,
    pub auth_token: Option<String>,
}

// ─── Single-flight guard ──────────────────────────────────────────

/// Mutual exclusion over starting the channel loop: at most one loop runs.
#[derive(Debug)]
pub struct LoopGuard {
    active: bool,
}

impl LoopGuard {
    /// A loop is running.
    pub closed spec fn spec_active(&self) -> bool {
        self.active
    }

    /// A guard with no loop running.
    pub fn new() -> (r: LoopGuard)
        ensures
            !r.spec_active(),
    {
        LoopGuard { active: false }
    }

    /// Whether a loop is running.
    pub fn is_active(&self) -> (r: bool)
        ensures
            r == self.spec_active(),
    {
        self.active
    }

    /// Claims the right to run the loop; `true` when the caller must start
    /// it, `false` when one is already running.
    pub fn try_start(&mut self) -> (started: bool)
        ensures
            started == !old(self).spec_active(),
            final(self).spec_active(),
    {
        let started = !self.active;
        self.active = true;
        started
    }

    /// Records that the running loop has ended.
    pub fn finish(&mut self)
        ensures
            !final(self).spec_active(),
    {
        self.active = false;
    }
}

/// Two start requests in a row, with no stop between them, leave exactly
/// one loop running: the second never starts another, and the first starts
/// one exactly when none was running.
pub proof fn lemma_single_loop(g0: LoopGuard, g1: LoopGuard, g2: LoopGuard, s1: bool, s2: bool)
    requires
        s1 == !g0.spec_active(),
        g1.spec_active(),
        s2 == !g1.spec_active(),
        g2.spec_active(),
    ensures
        !s2,
        (if g0.spec_active() { 1int } else { 0int }) + (if s1 { 1int } else { 0int }) + (if s2 {
            1int
        } else {
            0int
        }) == 1,
        g2.spec_active(),
{
}

// ─── The channel loop's decisions ─────────────────────────────────

/// Seconds to wait before the first connection attempt.
pub const STARTUP_DELAY_SECS: u64 = 2;

/// Seconds to wait before looking for credentials again when there are none.
pub const NO_CREDENTIALS_DELAY_SECS: u64 = 10;

/// Seconds to wait before any new connection attempt after a failure or a loss.
pub const RETRY_DELAY_SECS: u64 = 5;

/// Seconds between two keepalive pings.
pub const KEEPALIVE_INTERVAL_SECS: u64 = 30;

/// Milliseconds the reconnect command waits for the old loop to stop.
pub const RECONNECT_GRACE_MS: u64 = 500;

/// What happened to the channel loop.
#[derive(Debug, Clone)]
pub enum ChannelEvent {
    /// The loop began.
    Started,
    /// A wait the loop asked for is over.
    WaitElapsed,
    /// The stored credentials were read afresh.
    CredentialsLoaded(Option<CompanionCredentials>),
    /// The transport is established.
    Connected,
    /// The connection attempt failed (name resolution, TCP, handshake).
    ConnectFailed,
    /// The keepalive timer fired.
    KeepaliveDue,
    /// A read error, a close from the server, the end of the stream, or the
    /// outbound queue closed.
    TransportLost,
    /// An external command asked for a fresh connection.
    ReconnectRequested,
}

/// What the loop does next.
#[derive(Debug, Clone, PartialEq, Eq)]
pub enum ChannelCommand {
    /// Sleep for the given number of seconds, then report `WaitElapsed`.
    Wait(u64),
    /// Read the stored credentials, then report `CredentialsLoaded`.
    LoadCredentials,
    /// Open the transport to the given endpoint, then report `Connected`
    /// or `ConnectFailed`.
    Connect(String),
    /// Queue a keepalive ping frame.
    SendKeepalive,
    /// Close the current connection, then sleep for the given number of
    /// seconds and report `WaitElapsed`.
    CloseAndWait(u64),
    /// Keep waiting for the next event.
    Continue,
}

/// The state the channel moves to on `event` from `state`.
pub open spec fn next_state(state: ConnectionState, event: ChannelEvent) -> ConnectionState {
    match event {
        ChannelEvent::Started => ConnectionState::Disconnected,
        ChannelEvent::WaitElapsed => ConnectionState::Connecting,
        ChannelEvent::CredentialsLoaded(None) => ConnectionState::Disconnected,
        ChannelEvent::CredentialsLoaded(Some(_)) => ConnectionState::Connecting,
        ChannelEvent::Connected => ConnectionState::Connected,
        ChannelEvent::ConnectFailed => ConnectionState::Reconnecting,
        ChannelEvent::KeepaliveDue => state,
        ChannelEvent::TransportLost => ConnectionState::Reconnecting,
        ChannelEvent::ReconnectRequested => ConnectionState::Reconnecting,
    }
}

/// The endpoint scheme for a gateway address: `https` becomes `wss`,
/// `http` becomes `ws`.
pub open spec fn socket_base(url: Seq<char>) -> Seq<char> {
    if has_prefix(url, "https://"@) {
        "wss://"@ + url.subrange(8, url.len() as int)
    } else if has_prefix(url, "http://"@) {
        "ws://"@ + url.subrange(7, url.len() as int)
    } else {
        url
    }
}

/// The transport endpoint for credentials `c`: the socket path on the
/// gateway, with the companion's identity and, if any, its token as query
/// parameters.
pub open spec fn endpoint_text(c: CompanionCredentials) -> Seq<char> {
    socket_base(c.gateway_url@) + "/ws?companionId="@ + c.companion_id@ + match c.auth_token {
        Some(t) => "&token="@ + t@,
        None => Seq::empty(),
    }
}

/// The transport endpoint for `creds`.
pub fn endpoint_url(creds: &CompanionCredentials) -> (r: String)
    ensures
        r@ == endpoint_text(*creds),
{
    let url = creds.gateway_url.as_str();
    let uc = chars_of(url);
    proof {
        reveal_strlit("https://");
        reveal_strlit("http://");
    }
    let base = if starts_with(&uc, &chars_of("https://")) {
        string_of("wss://").concat(url.substring_char(8, url.unicode_len()))
    } else if starts_with(&uc, &chars_of("http://")) {
        string_of("ws://").concat(url.substring_char(7, url.unicode_len()))
    } else {
        string_of(url)
    };
    let mut r = base.concat("/ws?companionId=").concat(creds.companion_id.as_str());
    match &creds.auth_token {
        Some(t) => {
            r = r.concat("&token=").concat(t.as_str());
        },
        None => {
            assert(r@ =~= r@ + Seq::<char>::empty());
        },
    }
    r
}

/// `cmd` is what the channel does on `event` from `state`: wait before the
/// first attempt, read credentials afresh before every attempt, wait and
/// retry when there are none, connect to the endpoint they give, ping only
/// while connected, and after any failure, loss or reconnect request close
/// and retry after the fixed delay.
pub open spec fn issues(state: ConnectionState, event: ChannelEvent, cmd: ChannelCommand) -> bool {
    match event {
        ChannelEvent::Started => cmd == ChannelCommand::Wait(STARTUP_DELAY_SECS),
        ChannelEvent::WaitElapsed => cmd == ChannelCommand::LoadCredentials,
        ChannelEvent::CredentialsLoaded(None) => cmd == ChannelCommand::Wait(
            NO_CREDENTIALS_DELAY_SECS,
        ),
        ChannelEvent::CredentialsLoaded(Some(c)) => cmd matches ChannelCommand::Connect(u) && u@
            == endpoint_text(c),
        ChannelEvent::Connected => cmd == ChannelCommand::Continue,
        ChannelEvent::ConnectFailed => cmd == ChannelCommand::Wait(RETRY_DELAY_SECS),
        ChannelEvent::KeepaliveDue => cmd == (if state.spec_is_connected() {
            ChannelCommand::SendKeepalive
        } else {
            ChannelCommand::Continue
        }),
        ChannelEvent::TransportLost => cmd == ChannelCommand::CloseAndWait(RETRY_DELAY_SECS),
        ChannelEvent::ReconnectRequested => cmd == ChannelCommand::CloseAndWait(RETRY_DELAY_SECS),
    }
}

/// The channel's decision on `event` in `state`: the next state and the
/// command to carry out.
pub fn on_event(state: &ConnectionState, event: &ChannelEvent) -> (r: (ConnectionState, ChannelCommand))
    ensures
        r.0 == next_state(*state, *event),
        issues(*state, *event, r.1),
{
    match event {
        ChannelEvent::Started => (ConnectionState::Disconnected, ChannelCommand::Wait(STARTUP_DELAY_SECS)),
        ChannelEvent::WaitElapsed => (ConnectionState::Connecting, ChannelCommand::LoadCredentials),
        ChannelEvent::CredentialsLoaded(None) => (
            ConnectionState::Disconnected,
            ChannelCommand::Wait(NO_CREDENTIALS_DELAY_SECS),
        ),
        ChannelEvent::CredentialsLoaded(Some(c)) => (
            ConnectionState::Connecting,
            ChannelCommand::Connect(endpoint_url(c)),
        ),
        ChannelEvent::Connected => (ConnectionState::Connected, ChannelCommand::Continue),
        ChannelEvent::ConnectFailed => (
            ConnectionState::Reconnecting,
            ChannelCommand::Wait(RETRY_DELAY_SECS),
        ),
        ChannelEvent::KeepaliveDue => {
            let cmd = if state.is_connected() {
                ChannelCommand::SendKeepalive
            } else {
                ChannelCommand::Continue
            };
            (state.copied(), cmd)
        },
        ChannelEvent::TransportLost => (
            ConnectionState::Reconnecting,
            ChannelCommand::CloseAndWait(RETRY_DELAY_SECS),
        ),
        ChannelEvent::ReconnectRequested => (
            ConnectionState::Reconnecting,
            ChannelCommand::CloseAndWait(RETRY_DELAY_SECS),
        ),
    }
}

/// After a transport loss in the middle of a session the channel is
/// `Reconnecting`, closes and waits the fixed delay, then reads the
/// credentials afresh and reconnects to the same endpoint; once connected
/// again, the keepalive timer sends pings, with no outside intervention.
pub proof fn lemma_recovers_after_loss(s: ConnectionState, c: CompanionCredentials)
    requires
        s.spec_is_connected(),
    ensures
        next_state(s, ChannelEvent::TransportLost) == ConnectionState::Reconnecting,
        issues(s, ChannelEvent::TransportLost, ChannelCommand::CloseAndWait(RETRY_DELAY_SECS)),
        issues(ConnectionState::Reconnecting, ChannelEvent::WaitElapsed, ChannelCommand::LoadCredentials),
        next_state(ConnectionState::Reconnecting, ChannelEvent::WaitElapsed)
            == ConnectionState::Connecting,
        next_state(ConnectionState::Connecting, ChannelEvent::CredentialsLoaded(Some(c)))
            == ConnectionState::Connecting,
        next_state(ConnectionState::Connecting, ChannelEvent::Connected)
            == ConnectionState::Connected,
        issues(ConnectionState::Connected, ChannelEvent::KeepaliveDue, ChannelCommand::SendKeepalive),
{
}

// ─── Frames ───────────────────────────────────────────────────────

/// `serde_json::from_str` accepts `text` as one JSON document.
pub uninterp spec fn json_accepts(text: Seq<char>) -> bool;

/// Relies on `serde_json::from_str`: parses `text` as a JSON document and
/// fails exactly when it is not one.
#[verifier::external_body]
fn is_json(text: &str) -> (r: bool)
    ensures
        r == json_accepts(text@),
{
    serde_json::from_str::<serde_json::Value>(text).is_ok()
}

/// The string that the JSON document `text` holds at the JSON pointer
/// `pointer` (`serde_json::Value::pointer`, then `as_str`), if any.
pub uninterp spec fn json_string_at(text: Seq<char>, pointer: Seq<char>) -> Option<Seq<char>>;

/// The unsigned integer that `text` holds at `pointer` (`as_u64`), if any.
pub uninterp spec fn json_u64_at(text: Seq<char>, pointer: Seq<char>) -> Option<u64>;

/// The boolean that `text` holds at `pointer` (`as_bool`), if any.
pub uninterp spec fn json_bool_at(text: Seq<char>, pointer: Seq<char>) -> Option<bool>;

/// Relies on `serde_json::from_str`, `Value::pointer` and `Value::as_str`:
/// the string at `pointer` in the document `text`.
#[verifier::external_body]
pub(crate) fn string_at(text: &str, pointer: &str) -> (r: Option<String>)
    ensures
        r matches Some(s) ==> json_string_at(text@, pointer@) == Some(s@),
        r is None ==> json_string_at(text@, pointer@) is None,
{
    match serde_json::from_str::<serde_json::Value>(text) {
        Ok(v) => match v.pointer(pointer) {
            Some(m) => match m.as_str() {
                Some(t) => Some(t.to_string()),
                None => None,
            },
            None => None,
        },
        Err(_) => None,
    }
}

/// Relies on `serde_json::from_str`, `Value::pointer` and `Value::as_u64`:
/// the unsigned integer at `pointer` in the document `text`.
#[verifier::external_body]
pub(crate) fn u64_at(text: &str, pointer: &str) -> (r: Option<u64>)
    ensures
        r == json_u64_at(text@, pointer@),
{
    match serde_json::from_str::<serde_json::Value>(text) {
        Ok(v) => match v.pointer(pointer) {
            Some(m) => m.as_u64(),
            None => None,
        },
        Err(_) => None,
    }
}

/// Relies on `serde_json::from_str`, `Value::pointer` and `Value::as_bool`:
/// the boolean at `pointer` in the document `text`.
#[verifier::external_body]
fn bool_at(text: &str, pointer: &str) -> (r: Option<bool>)
    ensures
        r == json_bool_at(text@, pointer@),
{
    match serde_json::from_str::<serde_json::Value>(text) {
        Ok(v) => match v.pointer(pointer) {
            Some(m) => m.as_bool(),
            None => None,
        },
        Err(_) => None,
    }
}

/// The lower-case hexadecimal digit of `d`, below sixteen.
pub open spec fn hex_digit(d: nat) -> char {
    if d < 10 {
        (48 + d) as char
    } else {
        (87 + d) as char
    }
}

/// How a JSON string writes the character `c`: quote and backslash escaped,
/// control characters as their short escape or as `\u00xx`, everything
/// else as itself.
pub open spec fn json_char(c: char) -> Seq<char> {
    if c == '"' {
        seq!['\\', '"']
    } else if c == '\\' {
        seq!['\\', '\\']
    } else if c == '\u{8}' {
        seq!['\\', 'b']
    } else if c == '\t' {
        seq!['\\', 't']
    } else if c == '\n' {
        seq!['\\', 'n']
    } else if c == '\u{c}' {
        seq!['\\', 'f']
    } else if c == '\r' {
        seq!['\\', 'r']
    } else if (c as u32) < 32 {
        seq!['\\', 'u', '0', '0', hex_digit(((c as u32) / 16) as nat), hex_digit(((c as u32) % 16) as nat)]
    } else {
        seq![c]
    }
}

/// The characters of `s`, each as a JSON string writes it.
pub open spec fn json_chars(s: Seq<char>) -> Seq<char>
    decreases s.len(),
{
    if s.len() == 0 {
        Seq::empty()
    } else {
        json_chars(s.drop_last()) + json_char(s.last())
    }
}

/// The JSON string that `serde_json::to_string` writes for `s`.
pub open spec fn json_quoted(s: Seq<char>) -> Seq<char> {
    seq!['"'] + json_chars(s) + seq!['"']
}

/// Relies on `serde_json::to_string` on a string slice, which writes into
/// memory and cannot fail for a string; its escapes follow serde_json's
/// `ESCAPE` table and `write_char_escape`.
#[verifier::external_body]
pub(crate) fn quote_json(s: &str) -> (r: String)
    ensures
        r@ == json_quoted(s@),
{
    match serde_json::to_string(s) {
        Ok(q) => q,
        Err(_) => String::new(),
    }
}

/// The string an optional member gives: its text, or empty when absent.
pub open spec fn text_or_empty(v: Option<Seq<char>>) -> Seq<char> {
    match v {
        Some(t) => t,
        None => Seq::empty(),
    }
}

/// `o` holds what the lookup `v` found.
pub open spec fn reads(o: Option<String>, v: Option<Seq<char>>) -> bool {
    match o {
        Some(s) => v == Some(s@),
        None => v is None,
    }
}

/// The parameters of an inbound action request: its string fields, and
/// whether a human already confirmed it.
#[derive(Debug, Clone)]
pub struct RequestParams {
    pub path: Option<String>,
    pub command: Option<String>,
    pub content: Option<String>,
    pub process_name: Option<String>,
    pub app_name: Option<String>,
    pub cwd: Option<String>,
    pub confirmed: bool,
}

/// `p` holds the parameters of the frame `text`: each field the string
/// member of `params` under its name, and `confirmed` true only when
/// `params` holds `confirmed: true`.
pub open spec fn params_of(p: RequestParams, text: Seq<char>) -> bool {
    &&& reads(p.path, json_string_at(text, "/params/path"@))
    &&& reads(p.command, json_string_at(text, "/params/command"@))
    &&& reads(p.content, json_string_at(text, "/params/content"@))
    &&& reads(p.process_name, json_string_at(text, "/params/process_name"@))
    &&& reads(p.app_name, json_string_at(text, "/params/app_name"@))
    &&& reads(p.cwd, json_string_at(text, "/params/cwd"@))
    &&& p.confirmed == (json_bool_at(text, "/params/confirmed"@) == Some(true))
}

impl RequestParams {
    /// Parameters with no field set, unconfirmed.
    pub fn empty() -> (r: RequestParams)
        ensures
            r.is_empty(),
    {
        RequestParams {
            path: None,
            command: None,
            content: None,
            process_name: None,
            app_name: None,
            cwd: None,
            confirmed: false,
        }
    }

    /// No field is set and nothing is confirmed.
    pub open spec fn is_empty(&self) -> bool {
        self.path is None && self.command is None && self.content is None
            && self.process_name is None && self.app_name is None && self.cwd is None
            && !self.confirmed
    }

    /// The parameters of the frame `text`; a member that is absent or not a
    /// string, or `params` that is not an object, gives no value.
    pub fn from_frame(text: &str) -> (r: RequestParams)
        ensures
            params_of(r, text@),
    {
        RequestParams {
            path: string_at(text, "/params/path"),
            command: string_at(text, "/params/command"),
            content: string_at(text, "/params/content"),
            process_name: string_at(text, "/params/process_name"),
            app_name: string_at(text, "/params/app_name"),
            cwd: string_at(text, "/params/cwd"),
            confirmed: match bool_at(text, "/params/confirmed") {
                Some(b) => b,
                None => false,
            },
        }
    }
}

/// One inbound frame, by its `type`.
#[derive(Debug, Clone)]
pub enum InboundFrame {
    /// Text that is not a JSON document; it is skipped.
    Malformed,
    /// An `action_request`.
    ActionRequest { request_id: String, action: String, params: RequestParams },
    /// A `health.pong` answer to a keepalive; it is only logged.
    Pong,
    /// Any other frame, with its `type` (empty when absent).
    Other(String),
}

/// The `type` of the frame `text`, empty when absent.
pub open spec fn frame_type(text: Seq<char>) -> Seq<char> {
    text_or_empty(json_string_at(text, "/type"@))
}

/// `r` is the decoding of the frame `text`: not JSON is malformed; an
/// `action_request` carries its `requestId` and `action` (empty when
/// absent) and its parameters; a `health.pong` is a pong; anything else is
/// other, with its type.
pub open spec fn decoded(r: InboundFrame, text: Seq<char>) -> bool {
    if !json_accepts(text) {
        r is Malformed
    } else if frame_type(text) == "action_request"@ {
        r matches InboundFrame::ActionRequest { request_id, action, params } && request_id@
            == text_or_empty(json_string_at(text, "/requestId"@)) && action@ == text_or_empty(
            json_string_at(text, "/action"@),
        ) && params_of(params, text)
    } else if frame_type(text) == "health.pong"@ {
        r is Pong
    } else {
        r matches InboundFrame::Other(k) && k@ == frame_type(text)
    }
}

fn or_empty(t: Option<String>) -> (r: String)
    ensures
        t matches Some(s) ==> r == s,
        t is None ==> r@ == Seq::<char>::empty(),
{
    match t {
        Some(s) => s,
        None => String::new(),
    }
}

/// Decodes one text frame from the gateway.
pub fn decode_frame(text: &str) -> (r: InboundFrame)
    ensures
        decoded(r, text@),
        r is Malformed <==> !json_accepts(text@),
{
    if !is_json(text) {
        return InboundFrame::Malformed;
    }
    let kind = or_empty(string_at(text, "/type"));
    let kc = chars_of(kind.as_str());
    if same_text(&kc, "action_request") {
        let request_id = or_empty(string_at(text, "/requestId"));
        let action = or_empty(string_at(text, "/action"));
        let params = RequestParams::from_frame(text);
        InboundFrame::ActionRequest { request_id, action, params }
    } else if same_text(&kc, "health.pong") {
        InboundFrame::Pong
    } else {
        InboundFrame::Other(kind)
    }
}

fn same_text(s: &Vec<char>, lit: &str) -> (r: bool)
    ensures
        r == (s@ == lit@),
{
    let l = chars_of(lit);
    crate::text::same_chars(s, &l)
}

/// Action requests named `desktop` go to the desktop sub-dispatcher.
pub fn is_desktop(action: &str) -> (r: bool)
    ensures
        r == (action@ == "desktop"@),
{
    let a = chars_of(action);
    same_text(&a, "desktop")
}

/// The request that an inbound `action_request` stands for; it is
/// confirmed only when its parameters say a human confirmed it.
pub open spec fn gateway_request(action: String, p: RequestParams) -> ActionRequest {
    ActionRequest {
        action,
        path: p.path,
        command: p.command,
        content: p.content,
        process_name: p.process_name,
        app_name: p.app_name,
        cwd: p.cwd,
        confirmed: p.confirmed,
    }
}

/// Builds the request for an inbound `action_request`.
pub fn request_from(action: String, params: RequestParams) -> (r: ActionRequest)
    ensures
        r == gateway_request(action, params),
{
    ActionRequest {
        action,
        path: params.path,
        command: params.command,
        content: params.content,
        process_name: params.process_name,
        app_name: params.app_name,
        cwd: params.cwd,
        confirmed: params.confirmed,
    }
}

/// Decides an inbound `action_request` for `action` with `params`.
pub fn answer_request(action: String, params: RequestParams, roots: &UserRoots) -> (r: Dispatch)
    ensures
        dispatched(r, gateway_request(action, params), *roots),
{
    let req = request_from(action, params);
    execute(&req, roots)
}

/// The outbound frame reporting `result` for request `request_id`.
pub open spec fn result_frame_text(request_id: Seq<char>, result: ActionResult) -> Seq<char> {
    "{\"type\":\"action_result\",\"requestId\":"@ + json_quoted(request_id) + ",\"success\":"@
        + (if result.success { "true"@ } else { "false"@ }) + ",\"output\":"@ + json_quoted(
        result.output@,
    ) + "}"@
}

/// The `action_result` frame for `result`.
pub fn result_frame(request_id: &str, result: &ActionResult) -> (r: String)
    ensures
        r@ == result_frame_text(request_id@, *result),
{
    let id = quote_json(request_id);
    let out = quote_json(result.output.as_str());
    string_of("{\"type\":\"action_result\",\"requestId\":").concat(id.as_str()).concat(
        ",\"success\":",
    ).concat(if result.success { "true" } else { "false" }).concat(",\"output\":").concat(
        out.as_str(),
    ).concat("}")
}

/// The periodic keepalive frame.
pub open spec fn keepalive_text() -> Seq<char> {
    "{\"type\":\"health.ping\",\"id\":\"keepalive\"}"@
}

/// The periodic keepalive frame.
pub fn keepalive_frame() -> (r: String)
    ensures
        r@ == keepalive_text(),
{
    string_of("{\"type\":\"health.ping\",\"id\":\"keepalive\"}")
}

/// The answer to a transport-level ping.
pub fn pong_frame() -> (r: String)
    ensures
        r@ == "{\"type\":\"pong\"}"@,
{
    string_of("{\"type\":\"pong\"}")
}

/// An `action_request` whose parameters could not be read (absent, not an
/// object, or without the fields its action needs) is still answered, with
/// a failed result whose output says what is wrong, and no operation,
/// whenever its action needs a field or is unknown; its answering frame is
/// `result_frame_text` of that result.
pub proof fn lemma_unreadable_params_answered(action: String, p: RequestParams, roots: UserRoots, r: Dispatch)
    requires
        p.is_empty(),
        action_named(action@) is None || !has_fields(
            action_named(action@)->0,
            gateway_request(action, p),
        ),
        dispatched(r, gateway_request(action, p), roots),
    ensures
        r matches Dispatch::Done(res) && !res.success && res.output@.len() > 0,
{
    reveal_strlit("Unknown action: ");
    reveal_strlit("path is required");
    reveal_strlit("content is required");
    reveal_strlit("path (source) is required");
    reveal_strlit("content (destination) is required");
    reveal_strlit("command is required");
    reveal_strlit("app_name is required");
    reveal_strlit("path (URL) is required");
    reveal_strlit("process_name is required");
}

} // verus!
