//! Building approval elicitations for the human in the loop, and turning
//! their replies into submissions.
use vstd::prelude::*;
use vstd::string::StringExecFns;
use crate::protocol::Op;
use crate::protocol::ReviewDecision;
use crate::protocol::unique_change_paths;
use crate::protocol::FileChangeEntry;
use crate::protocol::ThreadId;
use crate::text::seq_contains_sub;
pub use crate::protocol::ParsedCommand;

verus! {

/// The JSON schema requested of the client for an approval reply.
pub open spec fn approval_schema() -> Seq<char> {
    "{\"type\":\"object\",\"properties\":{}}"@
}

/// Params of an `elicitation/create` request asking to run a command.
#[derive(Clone, Debug, PartialEq, Eq)]
pub struct ExecApprovalElicitRequestParams {
    pub message: String,
    pub requested_schema: String,
    pub thread_id: ThreadId,
    pub rune_elicitation: String,
    pub rune_mcp_tool_call_id: String,
    pub rune_event_id: String,
    pub rune_call_id: String,
    pub rune_command: Vec<String>,
    pub rune_cwd: String,
    pub rune_parsed_cmd: Vec<ParsedCommand>,
}

/// A client's reply to an exec approval elicitation.
#[derive(Clone, Copy, Debug, PartialEq, Eq, Structural)]
pub struct ExecApprovalResponse {
    pub decision: ReviewDecision,
}

/// Params of an `elicitation/create` request asking to apply a patch.
#[derive(Clone, Debug, PartialEq, Eq)]
pub struct PatchApprovalElicitRequestParams {
    pub message: String,
    pub requested_schema: String,
    pub thread_id: ThreadId,
    pub rune_elicitation: String,
    pub rune_mcp_tool_call_id: String,
    pub rune_event_id: String,
    pub rune_call_id: String,
    pub rune_reason: Option<String>,
    pub rune_grant_root: Option<String>,
    pub rune_changes: Vec<FileChangeEntry>,
}

/// A client's reply to a patch approval elicitation.
#[derive(Clone, Copy, Debug, PartialEq, Eq, Structural)]
pub struct PatchApprovalResponse {
    pub decision: ReviewDecision,
}

/// What joining the words for a shell quotes them into: a function of the
/// words alone.
pub uninterp spec fn shell_join_of(words: Seq<Seq<char>>) -> Seq<char>;

/// Relies on shlex::try_join: quotes and joins the words; errors exactly when
/// some word holds a nul character; the result depends on the words alone.
#[verifier::external_body]
fn shell_try_join(words: &Vec<String>) -> (r: Option<String>)
    ensures
        r matches Some(s) ==> s@ == shell_join_of(words.deep_view()),
        (r is Some) == (forall|i: int|
            0 <= i < words.deep_view().len() ==> !words.deep_view()[i].contains('\u{0}')),
{
    shlex::try_join(words.iter().map(String::as_str)).ok()
}

/// The words joined by single spaces: the fallback rendering.
pub open spec fn joined_with_spaces(words: Seq<Seq<char>>) -> Seq<char>
    decreases words.len(),
{
    if words.len() == 0 {
        Seq::<char>::empty()
    } else if words.len() == 1 {
        words[0]
    } else {
        joined_with_spaces(words.drop_last()) + " "@ + words.last()
    }
}

fn join_spaces(words: &Vec<String>) -> (r: String)
    ensures
        r@ == joined_with_spaces(words.deep_view()),
{
    let mut s = String::new();
    let n = words.len();
    for i in 0..n
        invariant
            n == words@.len(),
            words.deep_view().len() == n,
            s@ == joined_with_spaces(words.deep_view().take(i as int)),
    {
        proof {
            assert(words.deep_view().take(i + 1).drop_last() =~= words.deep_view().take(i as int));
            assert(words.deep_view().take(i + 1).last() == words.deep_view()[i as int]);
            assert(words.deep_view()[i as int] == words@[i as int]@);
        }
        if i > 0 {
            s.append(" ");
        } else {
            proof {
                assert(words.deep_view().take(1) =~= seq![words.deep_view()[0]]);
            }
        }
        s.append(words[i].as_str());
    }
    proof {
        assert(words.deep_view().take(n as int) =~= words.deep_view());
    }
    s
}

/// How the command is shown in the approval message: shell-quoted when
/// possible, plain space-joined otherwise.
pub open spec fn escaped_command(words: Seq<Seq<char>>) -> Seq<char> {
    if forall|i: int| 0 <= i < words.len() ==> !(#[trigger] words[i]).contains('\u{0}') {
        shell_join_of(words)
    } else {
        joined_with_spaces(words)
    }
}

/// The question put to the user for a command.
pub open spec fn exec_approval_message(command: Seq<Seq<char>>, cwd: Seq<char>) -> Seq<char> {
    "Allow Rune to run `"@ + escaped_command(command) + "` in `"@ + cwd + "`?"@
}

/// Build the elicitation params for an exec approval request.
pub fn exec_approval_params(
    command: Vec<String>,
    cwd: String,
    thread_id: ThreadId,
    tool_call_id: String,
    event_id: String,
    call_id: String,
    parsed_cmd: Vec<ParsedCommand>,
) -> (r: ExecApprovalElicitRequestParams)
    ensures
        r.message@ == exec_approval_message(command.deep_view(), cwd@),
        r.requested_schema@ == approval_schema(),
        r.thread_id == thread_id,
        r.rune_elicitation@ == "exec-approval"@,
        r.rune_mcp_tool_call_id == tool_call_id,
        r.rune_event_id == event_id,
        r.rune_call_id == call_id,
        r.rune_command == command,
        r.rune_cwd == cwd,
        r.rune_parsed_cmd == parsed_cmd,
{
    let escaped = match shell_try_join(&command) {
        Some(s) => s,
        None => join_spaces(&command),
    };
    let mut message = String::new();
    message.append("Allow Rune to run `");
    message.append(escaped.as_str());
    message.append("` in `");
    message.append(cwd.as_str());
    message.append("`?");
    ExecApprovalElicitRequestParams {
        message,
        requested_schema: "{\"type\":\"object\",\"properties\":{}}".to_owned(),
        thread_id,
        rune_elicitation: "exec-approval".to_owned(),
        rune_mcp_tool_call_id: tool_call_id,
        rune_event_id: event_id,
        rune_call_id: call_id,
        rune_command: command,
        rune_cwd: cwd,
        rune_parsed_cmd: parsed_cmd,
    }
}

/// The question put to the user for a patch, with the model's reason first
/// when it gave one.
pub open spec fn patch_approval_message(reason: Option<Seq<char>>) -> Seq<char> {
    match reason {
        Some(r) => r + "\n"@ + "Allow Rune to apply proposed code changes?"@,
        None => "Allow Rune to apply proposed code changes?"@,
    }
}

/// Build the elicitation params for a patch approval request. The changeset
/// is the path-keyed map of proposed edits, carried through unchanged.
pub fn patch_approval_params(
    reason: Option<String>,
    grant_root: Option<String>,
    changes: Vec<FileChangeEntry>,
    thread_id: ThreadId,
    tool_call_id: String,
    event_id: String,
    call_id: String,
) -> (r: PatchApprovalElicitRequestParams)
    requires
        unique_change_paths(changes@),
    ensures
        r.message@ == patch_approval_message(match reason {
            Some(s) => Some(s@),
            None => None,
        }),
        r.requested_schema@ == approval_schema(),
        r.thread_id == thread_id,
        r.rune_elicitation@ == "patch-approval"@,
        r.rune_mcp_tool_call_id == tool_call_id,
        r.rune_event_id == event_id,
        r.rune_call_id == call_id,
        r.rune_reason == reason,
        r.rune_grant_root == grant_root,
        r.rune_changes == changes,
{
    let mut message = String::new();
    match &reason {
        Some(r) => {
            message.append(r.as_str());
            message.append("\n");
        },
        None => {},
    }
    message.append("Allow Rune to apply proposed code changes?");
    PatchApprovalElicitRequestParams {
        message,
        requested_schema: "{\"type\":\"object\",\"properties\":{}}".to_owned(),
        thread_id,
        rune_elicitation: "patch-approval".to_owned(),
        rune_mcp_tool_call_id: tool_call_id,
        rune_event_id: event_id,
        rune_call_id: call_id,
        rune_reason: reason,
        rune_grant_root: grant_root,
        rune_changes: changes,
    }
}

/// The decision taken from a reply: a reply that could not be read denies,
/// conservatively.
pub open spec fn decision_or_deny(parsed: Option<ReviewDecision>) -> ReviewDecision {
    match parsed {
        Some(d) => d,
        None => ReviewDecision::Denied,
    }
}

/// The submission made for an exec approval reply.
pub fn exec_approval_op(event_id: String, parsed: Option<ReviewDecision>) -> (r: Op)
    ensures
        r == (Op::ExecApproval { id: event_id, decision: decision_or_deny(parsed) }),
{
    let decision = match parsed {
        Some(d) => d,
        None => ReviewDecision::Denied,
    };
    Op::ExecApproval { id: event_id, decision }
}

/// The submission made for a patch approval reply; a failed request denies.
pub fn patch_approval_op(event_id: String, parsed: Option<ReviewDecision>) -> (r: Op)
    ensures
        r == (Op::PatchApproval { id: event_id, decision: decision_or_deny(parsed) }),
{
    let decision = match parsed {
        Some(d) => d,
        None => ReviewDecision::Denied,
    };
    Op::PatchApproval { id: event_id, decision }
}

} // verus!
