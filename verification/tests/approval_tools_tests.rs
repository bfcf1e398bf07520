use rune_core::approval::exec_approval_op;
use rune_core::approval::exec_approval_params;
use rune_core::approval::patch_approval_op;
use rune_core::approval::patch_approval_params;
use rune_core::approval::ParsedCommand;
use rune_core::protocol::FileChange;
use rune_core::protocol::FileChangeEntry;
use rune_core::protocol::Op;
use rune_core::protocol::ReviewDecision;
use rune_core::protocol::ThreadId;
use rune_core::tools::assess_command;
use rune_core::tools::CommandClass;
use rune_core::tools::SafetyDecision;
use rune_core::protocol::AskForApproval::{Always, Never, OnRequest, Untrusted};
use rune_core::tools::CommandClass::{Forbidden, Restricted, Trusted};
use rune_core::tools::SafetyDecision::{Refuse, Request, Run};

fn tid() -> ThreadId {
    ThreadId {
        id: "t-1".to_string(),
    }
}

#[test]
fn exec_elicitation_quotes_the_command_like_a_shell() {
    let params = exec_approval_params(
        vec!["echo".to_string(), "hello world".to_string()],
        "/work dir".to_string(),
        tid(),
        "tool-1".to_string(),
        "ev-1".to_string(),
        "call-1".to_string(),
        vec![ParsedCommand {
            text: "echo".to_string(),
        }],
    );
    assert_eq!(
        params.message,
        "Allow Rune to run `echo 'hello world'` in `/work dir`?"
    );
    assert_eq!(params.requested_schema, "{\"type\":\"object\",\"properties\":{}}");
    assert_eq!(params.rune_elicitation, "exec-approval");
    assert_eq!(params.rune_call_id, "call-1");
    assert_eq!(params.rune_mcp_tool_call_id, "tool-1");
    assert_eq!(params.rune_event_id, "ev-1");
    assert_eq!(params.rune_command, vec!["echo", "hello world"]);
    assert_eq!(params.rune_cwd, "/work dir");
}

#[test]
fn exec_elicitation_falls_back_to_plain_join_on_nul_bytes() {
    let params = exec_approval_params(
        vec!["echo".to_string(), "a\u{0}b".to_string()],
        "/w".to_string(),
        tid(),
        "tool-1".to_string(),
        "ev-1".to_string(),
        "call-1".to_string(),
        Vec::new(),
    );
    assert_eq!(params.message, "Allow Rune to run `echo a\u{0}b` in `/w`?");
}

#[test]
fn patch_elicitation_puts_the_reason_first_and_keeps_the_changes() {
    let changes = vec![
        FileChangeEntry {
            path: "src/main.rs".to_string(),
            change: FileChange::Add {
                content: "fn main() {}".to_string(),
            },
        },
        FileChangeEntry {
            path: "old.rs".to_string(),
            change: FileChange::Delete,
        },
    ];
    let params = patch_approval_params(
        Some("needs write access".to_string()),
        Some("/work".to_string()),
        changes.clone(),
        tid(),
        "tool-2".to_string(),
        "ev-2".to_string(),
        "call-2".to_string(),
    );
    assert_eq!(
        params.message,
        "needs write access\nAllow Rune to apply proposed code changes?"
    );
    assert_eq!(params.rune_elicitation, "patch-approval");
    assert_eq!(params.rune_grant_root, Some("/work".to_string()));
    assert_eq!(params.rune_changes, changes);
    let bare = patch_approval_params(
        None,
        None,
        Vec::new(),
        tid(),
        "tool-2".to_string(),
        "ev-2".to_string(),
        "call-2".to_string(),
    );
    assert_eq!(bare.message, "Allow Rune to apply proposed code changes?");
    assert!(bare.rune_changes.is_empty());
}

#[test]
fn unreadable_replies_deny_conservatively() {
    let op = exec_approval_op("ev-0".to_string(), Some(ReviewDecision::Approved));
    assert_eq!(
        op,
        Op::ExecApproval {
            id: "ev-0".to_string(),
            decision: ReviewDecision::Approved
        }
    );
    let op = exec_approval_op("ev-1".to_string(), None);
    assert_eq!(
        op,
        Op::ExecApproval {
            id: "ev-1".to_string(),
            decision: ReviewDecision::Denied
        }
    );
    let op = patch_approval_op("ev-2".to_string(), Some(ReviewDecision::Abort));
    assert_eq!(
        op,
        Op::PatchApproval {
            id: "ev-2".to_string(),
            decision: ReviewDecision::Abort
        }
    );
}

#[test]
fn the_safety_table_is_exactly_the_specified_one() {
    let table = [
        (Never, Trusted, Run),
        (Never, Restricted, Run),
        (Never, Forbidden, Refuse),
        (OnRequest, Trusted, Run),
        (OnRequest, Restricted, Request),
        (OnRequest, Forbidden, Refuse),
        (Untrusted, Trusted, Request),
        (Untrusted, Restricted, Request),
        (Untrusted, Forbidden, Refuse),
        (Always, Trusted, Request),
        (Always, Restricted, Request),
        (Always, Forbidden, Refuse),
    ];
    for (policy, class, expected) in table {
        assert_eq!(assess_command(policy, class), expected, "{policy:?}/{class:?}");
    }
}
