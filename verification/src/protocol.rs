//! The protocol data model: submissions, events, response items, and the
//! streaming and error types shared with model providers.
use vstd::prelude::*;
use vstd::string::StringExecFns;
use crate::text::dec_digits;
use crate::text::u64_to_dec_string;

verus! {

/// A thread identifier; stable for the thread's lifetime and part of every
/// event and rollout filename.
#[derive(Clone, Debug, PartialEq, Eq)]
pub struct ThreadId {
    pub id: String,
}

/// One unit of user input inside a submission.
#[derive(Clone, Debug, PartialEq, Eq)]
pub struct UserInput {
    pub text: String,
}

/// A human decision on an approval request.
#[derive(Clone, Copy, Debug, PartialEq, Eq, Structural)]
pub enum ReviewDecision {
    Approved,
    ApprovedForSession,
    Denied,
    Abort,
}

/// When the agent asks a human before running a tool.
#[derive(Clone, Copy, Debug, PartialEq, Eq, Structural)]
pub enum AskForApproval {
    Never,
    OnRequest,
    Untrusted,
    Always,
}

/// What the sandbox lets a spawned process touch.
#[derive(Clone, Debug, PartialEq, Eq)]
pub enum SandboxPolicy {
    ReadOnly,
    WorkspaceWrite { grant_roots: Vec<String> },
    DangerFullAccess,
}

/// Which front end opened the session.
#[derive(Clone, Copy, Debug, PartialEq, Eq, Structural)]
pub enum SessionSource {
    Tui,
    Exec,
    Mcp,
}

/// Reasoning effort requested of the model.
#[derive(Clone, Copy, Debug, PartialEq, Eq, Structural)]
pub enum ReasoningEffort {
    Low,
    Medium,
    High,
    XHigh,
}

/// Verbosity requested of the model.
#[derive(Clone, Copy, Debug, PartialEq, Eq, Structural)]
pub enum Verbosity {
    Low,
    Medium,
    High,
}

/// An assistant personality selected for the thread.
#[derive(Clone, Copy, Debug, PartialEq, Eq, Structural)]
pub enum Personality {
    Friendly,
    Pragmatic,
}

/// Per-turn context fields that an `OverrideTurnContext` submission may
/// replace; a `None` field leaves the current value unchanged.
#[derive(Clone, Debug, PartialEq, Eq)]
pub struct TurnContextOverride {
    pub model: Option<String>,
    pub effort: Option<ReasoningEffort>,
    pub sandbox_policy: Option<SandboxPolicy>,
    pub approval_policy: Option<AskForApproval>,
    pub personality: Option<Personality>,
    pub cwd: Option<String>,
}

impl TurnContextOverride {
    /// An override with every field absent: applying it changes nothing.
    pub open spec fn is_empty_spec(&self) -> bool {
        self.model is None && self.effort is None && self.sandbox_policy is None
            && self.approval_policy is None && self.personality is None && self.cwd is None
    }

    pub fn none() -> (r: TurnContextOverride)
        ensures
            r.is_empty_spec(),
    {
        TurnContextOverride {
            model: None,
            effort: None,
            sandbox_policy: None,
            approval_policy: None,
            personality: None,
            cwd: None,
        }
    }
}

/// A tagged operation submitted to a thread.
#[derive(Clone, Debug, PartialEq, Eq)]
pub enum Op {
    UserInput { items: Vec<UserInput> },
    UserTurn { items: Vec<UserInput>, context: TurnContextOverride },
    OverrideTurnContext { context: TurnContextOverride },
    ExecApproval { id: String, decision: ReviewDecision },
    PatchApproval { id: String, decision: ReviewDecision },
    Interrupt,
    Shutdown,
}

/// A submission: an operation with the id that events will cite back.
#[derive(Clone, Debug, PartialEq, Eq)]
pub struct Submission {
    pub id: String,
    pub op: Op,
}

/// Counts reported by a model for one completed response.
#[derive(Clone, Copy, Debug, PartialEq, Eq, Structural)]
pub struct TokenUsage {
    pub input_tokens: u64,
    pub cached_input_tokens: u64,
    pub output_tokens: u64,
    pub reasoning_output_tokens: u64,
    pub total_tokens: u64,
}

/// One rate-limit window reported by a provider: how much of it is used, in
/// whole percent, and when it resets.
#[derive(Clone, Copy, Debug, PartialEq, Eq, Structural)]
pub struct RateLimitWindow {
    pub used_percent: u64,
    pub resets_in_seconds: Option<u64>,
}

/// Rate-limit standing reported by a provider: the short and the long
/// window, each only when its headers were present.
#[derive(Clone, Copy, Debug, PartialEq, Eq, Structural)]
pub struct RateLimitSnapshot {
    pub primary: Option<RateLimitWindow>,
    pub secondary: Option<RateLimitWindow>,
}

/// One unit returned by a model: assistant text, a reasoning trace, a tool
/// call, or a tool-call result.
#[derive(Clone, Debug, PartialEq, Eq)]
pub enum ResponseItem {
    AssistantMessage { text: String },
    Reasoning { summary: String },
    ToolCall { call_id: String, name: String, arguments: String },
    ToolResult { call_id: String, output: String, is_error: bool },
}

/// Events emitted while a model response streams in.
#[derive(Clone, Debug, PartialEq, Eq)]
pub enum ResponseEvent {
    Created,
    OutputItemAdded(ResponseItem),
    OutputItemDone(ResponseItem),
    OutputTextDelta(String),
    Completed { response_id: String, token_usage: Option<TokenUsage> },
    ReasoningSummaryDelta { delta: String },
    ReasoningContentDelta { delta: String },
    ReasoningSummaryPartAdded { part: String },
    ServerReasoningIncluded(bool),
    RateLimits(RateLimitSnapshot),
    ModelsEtag(String),
}

/// Errors from talking to a local Ollama provider.
#[derive(Clone, Debug, PartialEq, Eq)]
pub enum OllamaError {
    ConnectionFailed { message: String, status_code: Option<u16> },
    ServerError { message: String, status_code: Option<u16> },
    BadRequest(String),
    ModelNotFound(String),
    Timeout,
    StreamDisconnected,
    ParseError(String),
    Other(String),
}

/// The trailing ` (status: N)` note, when a status code is known.
pub open spec fn status_note(status_code: Option<u16>) -> Seq<char> {
    match status_code {
        Some(code) => " (status: "@ + dec_digits(code as nat) + ")"@,
        None => Seq::<char>::empty(),
    }
}

/// The human-readable rendering of an [`OllamaError`].
pub open spec fn ollama_error_message(e: &OllamaError) -> Seq<char> {
    match e {
        OllamaError::ConnectionFailed { message, status_code } => "Connection failed: "@
            + message@ + status_note(*status_code),
        OllamaError::ServerError { message, status_code } => "Server error: "@ + message@
            + status_note(*status_code),
        OllamaError::BadRequest(msg) => "Bad request: "@ + msg@,
        OllamaError::ModelNotFound(model) => "Model not found: "@ + model@,
        OllamaError::Timeout => "Request timed out"@,
        OllamaError::StreamDisconnected => "Stream disconnected"@,
        OllamaError::ParseError(msg) => "Parse error: "@ + msg@,
        OllamaError::Other(msg) => "Error: "@ + msg@,
    }
}

fn append_status_note(s: &mut String, status_code: &Option<u16>)
    ensures
        final(s)@ == old(s)@ + status_note(*status_code),
{
    match status_code {
        Some(code) => {
            s.append(" (status: ");
            let digits = u64_to_dec_string(*code as u64);
            s.append(digits.as_str());
            s.append(")");
        },
        None => {
            proof {
                assert(s@ =~= s@ + Seq::<char>::empty());
            }
        },
    }
}

impl OllamaError {
    /// The message a user sees for this error.
    pub fn message(&self) -> (r: String)
        ensures
            r@ == ollama_error_message(self),
    {
        let mut s = String::new();
        match self {
            OllamaError::ConnectionFailed { message, status_code } => {
                s.append("Connection failed: ");
                s.append(message.as_str());
                append_status_note(&mut s, status_code);
            },
            OllamaError::ServerError { message, status_code } => {
                s.append("Server error: ");
                s.append(message.as_str());
                append_status_note(&mut s, status_code);
            },
            OllamaError::BadRequest(msg) => {
                s.append("Bad request: ");
                s.append(msg.as_str());
            },
            OllamaError::ModelNotFound(model) => {
                s.append("Model not found: ");
                s.append(model.as_str());
            },
            OllamaError::Timeout => {
                s.append("Request timed out");
            },
            OllamaError::StreamDisconnected => {
                s.append("Stream disconnected");
            },
            OllamaError::ParseError(msg) => {
                s.append("Parse error: ");
                s.append(msg.as_str());
            },
            OllamaError::Other(msg) => {
                s.append("Error: ");
                s.append(msg.as_str());
            },
        }
        s
    }
}

/// One step of a command as the command parser displays it.
#[derive(Clone, Debug, PartialEq, Eq)]
pub struct ParsedCommand {
    pub text: String,
}

/// A change to one file proposed by an `apply_patch` tool call.
#[derive(Clone, Debug, PartialEq, Eq)]
pub enum FileChange {
    Add { content: String },
    Delete,
    Update { unified_diff: String },
}

/// One entry of a proposed changeset: the file's path and what happens to
/// it. A changeset is a path-keyed map carried as a list with unique paths.
#[derive(Clone, Debug, PartialEq, Eq)]
pub struct FileChangeEntry {
    pub path: String,
    pub change: FileChange,
}

/// The path-keyed changeset holds each path once.
pub open spec fn unique_change_paths(changes: Seq<FileChangeEntry>) -> bool {
    forall|i: int, j: int|
        0 <= i < j < changes.len() ==> (#[trigger] changes[i]).path@ != (#[trigger] changes[j]).path@
}

/// An event sent back to the front end, correlated by `id` to the submission
/// or turn that produced it.
#[derive(Clone, Debug, PartialEq, Eq)]
pub struct Event {
    pub id: String,
    pub msg: EventMsg,
}

/// The payload of an outbound event.
#[derive(Clone, Debug, PartialEq, Eq)]
pub enum EventMsg {
    SessionConfigured { thread_id: ThreadId, model: String, model_provider_id: String },
    TurnStarted { turn_id: String },
    AssistantMessage { text: String },
    ReasoningSummary { text: String },
    ExecBegin { call_id: String, command: String, cwd: String },
    ExecEnd { call_id: String, exit_code: i64 },
    PatchBegin { call_id: String },
    PatchEnd { call_id: String, success: bool },
    ExecApprovalRequest {
        call_id: String,
        command: String,
        cwd: String,
        parsed_cmd: Vec<ParsedCommand>,
    },
    PatchApprovalRequest {
        call_id: String,
        reason: Option<String>,
        grant_root: Option<String>,
        changes: Vec<FileChangeEntry>,
    },
    TokenCount { usage: TokenUsage },
    Error { message: String },
    TurnComplete { interrupted: bool, token_usage: Option<TokenUsage> },
    ShutdownComplete,
}

/// The two events are the same event: equal in every field, with the parsed
/// command of an exec approval request and the changeset of a patch approval
/// request compared entry by entry.
pub open spec fn event_like(a: Event, b: Event) -> bool {
    &&& a.id == b.id
    &&& match (a.msg, b.msg) {
        (
            EventMsg::ExecApprovalRequest { call_id: c1, command: cm1, cwd: cw1, parsed_cmd: p1 },
            EventMsg::ExecApprovalRequest { call_id: c2, command: cm2, cwd: cw2, parsed_cmd: p2 },
        ) => c1 == c2 && cm1 == cm2 && cw1 == cw2 && p1@ == p2@,
        (
            EventMsg::PatchApprovalRequest {
                call_id: c1,
                reason: r1,
                grant_root: g1,
                changes: ch1,
            },
            EventMsg::PatchApprovalRequest {
                call_id: c2,
                reason: r2,
                grant_root: g2,
                changes: ch2,
            },
        ) => c1 == c2 && r1 == r2 && g1 == g2 && ch1@ == ch2@,
        _ => a.msg == b.msg,
    }
}

/// The message shown when the agent cannot come up.
pub fn failed_to_initialize_message(err_text: &str) -> (r: String)
    ensures
        r@ == "Failed to initialize rune: "@ + err_text@,
{
    let mut m = String::new();
    m.append("Failed to initialize rune: ");
    m.append(err_text);
    m
}

/// Whether an event ends the forwarding loop: `ShutdownComplete` is terminal
/// for a thread.
pub fn is_terminal_event(msg: &EventMsg) -> (r: bool)
    ensures
        r == (msg is ShutdownComplete),
{
    match msg {
        EventMsg::ShutdownComplete => true,
        _ => false,
    }
}

} // verus!
