use rune_core::protocol::AskForApproval;
use rune_core::protocol::EventMsg;
use rune_core::protocol::Op;
use rune_core::protocol::ResponseItem;
use rune_core::protocol::SandboxPolicy;
use rune_core::protocol::SessionSource;
use rune_core::protocol::ThreadId;
use rune_core::protocol::TurnContextOverride;
use rune_core::protocol::UserInput;
use rune_core::recorder::RolloutItem;
use rune_core::runtime::AgentStatus;
use rune_core::runtime::Clock;
use rune_core::runtime::SteerInputError;
use rune_core::protocol::FileChange;
use rune_core::protocol::FileChangeEntry;
use rune_core::runtime::ThreadRuntime;
use rune_core::runtime::ToolCallRequest;
use rune_core::runtime::ToolKind;
use rune_core::runtime::TurnContext;
use rune_core::tools::CommandClass;

fn clock() -> Clock {
    Clock {
        timestamp: "2030-12-30T00:00:00Z".to_string(),
        date_dir: "2030/12/30".to_string(),
        file_ts: "2030-12-30T00-00-00".to_string(),
    }
}

fn context(policy: AskForApproval) -> TurnContext {
    TurnContext {
        model: "gpt-5.1".to_string(),
        model_provider_id: "mock_provider".to_string(),
        effort: None,
        approval_policy: policy,
        sandbox_policy: SandboxPolicy::ReadOnly,
        cwd: "/work".to_string(),
        personality: None,
        session_source: SessionSource::Exec,
    }
}

fn runtime(policy: AskForApproval, ephemeral: bool) -> ThreadRuntime {
    ThreadRuntime::new(
        ThreadId {
            id: "tid-1".to_string(),
        },
        "rune_exec".to_string(),
        "0.1.0".to_string(),
        context(policy),
        ephemeral,
        "/home/u/.rune".to_string(),
    )
}

fn exec_call(call_id: &str, command: &str) -> ToolCallRequest {
    ToolCallRequest {
        kind: ToolKind::Exec,
        call_id: call_id.to_string(),
        command: command.to_string(),
        cwd: "/work".to_string(),
        parsed_cmd: Vec::new(),
        reason: None,
        grant_root: None,
        changes: Vec::new(),
    }
}

fn user_input(text: &str) -> Op {
    Op::UserInput {
        items: vec![UserInput {
            text: text.to_string(),
        }],
    }
}

fn drain(rt: &mut ThreadRuntime) -> Vec<EventMsg> {
    let mut out = Vec::new();
    while let Some(e) = rt.next_event() {
        out.push(e.msg);
    }
    out
}

#[test]
fn first_user_input_materializes_the_rollout_and_starts_a_turn() {
    let mut rt = runtime(AskForApproval::Never, false);
    assert!(rt.recorder.persisted_path.is_none());
    let c = clock();
    let sid = rt.submit(user_input("hello"), &c);
    assert_eq!(sid, "sub-0");
    let path = rt.recorder.persisted_path.clone().expect("file should exist now");
    assert_eq!(
        path,
        "/home/u/.rune/sessions/2030/12/30/rollout-2030-12-30T00-00-00-tid-1.jsonl"
    );
    assert!(matches!(
        rt.recorder.lines[0].item,
        RolloutItem::SessionMeta(ref m) if m.id.id == "tid-1"
    ));
    let events = drain(&mut rt);
    assert_eq!(
        events,
        vec![EventMsg::TurnStarted {
            turn_id: "turn-0".to_string()
        }]
    );
    assert_eq!(rt.agent_status(), AgentStatus::Working);
}

#[test]
fn ephemeral_threads_never_create_a_file() {
    let mut rt = runtime(AskForApproval::Never, true);
    let c = clock();
    rt.submit(user_input("hello"), &c);
    rt.on_model_item(
        ResponseItem::AssistantMessage {
            text: "hi there".to_string(),
        },
        &c,
    );
    rt.on_model_completed(None, false, &c);
    assert!(rt.recorder.persisted_path.is_none());
    assert!(!rt.recorder.lines.is_empty());
}

#[test]
fn untrusted_policy_requests_approval_before_exec_begins() {
    let mut rt = runtime(AskForApproval::Untrusted, false);
    let c = clock();
    rt.submit(user_input("run it"), &c);
    rt.on_tool_call(exec_call("call-1", "touch /tmp/it"), CommandClass::Trusted, &c);
    let events = drain(&mut rt);
    assert!(matches!(
        events.last(),
        Some(EventMsg::ExecApprovalRequest { call_id, command, cwd, .. })
            if call_id == "call-1" && command == "touch /tmp/it" && cwd == "/work"
    ));
    assert_eq!(rt.agent_status(), AgentStatus::AwaitingApproval);

    // A second tool call while the approval is outstanding does nothing.
    rt.on_tool_call(exec_call("call-2", "rm -rf /"), CommandClass::Trusted, &c);
    assert!(drain(&mut rt).is_empty());

    rt.submit(
        Op::ExecApproval {
            id: "call-1".to_string(),
            decision: rune_core::protocol::ReviewDecision::Approved,
        },
        &c,
    );
    let events = drain(&mut rt);
    assert_eq!(
        events,
        vec![EventMsg::ExecBegin {
            call_id: "call-1".to_string(),
            command: "touch /tmp/it".to_string(),
            cwd: "/work".to_string(),
        }]
    );
}

#[test]
fn denied_approval_never_begins_and_journals_an_error_result() {
    let mut rt = runtime(AskForApproval::Untrusted, false);
    let c = clock();
    rt.submit(user_input("run it"), &c);
    rt.on_tool_call(exec_call("call-1", "touch /tmp/it"), CommandClass::Restricted, &c);
    drain(&mut rt);
    rt.submit(
        Op::ExecApproval {
            id: "call-1".to_string(),
            decision: rune_core::protocol::ReviewDecision::Denied,
        },
        &c,
    );
    assert!(drain(&mut rt).is_empty());
    assert!(rt.recorder.lines.iter().any(|l| matches!(
        &l.item,
        RolloutItem::ResponseItem(ResponseItem::ToolResult { call_id, is_error, .. })
            if call_id == "call-1" && *is_error
    )));
}

#[test]
fn forbidden_commands_are_refused_under_every_policy() {
    let mut rt = runtime(AskForApproval::Never, false);
    let c = clock();
    rt.submit(user_input("run it"), &c);
    drain(&mut rt);
    rt.on_tool_call(exec_call("call-9", "forbidden-thing"), CommandClass::Forbidden, &c);
    assert!(drain(&mut rt).is_empty());
    assert!(rt.recorder.lines.iter().any(|l| matches!(
        &l.item,
        RolloutItem::ResponseItem(ResponseItem::ToolResult { call_id, is_error, .. })
            if call_id == "call-9" && *is_error
    )));
}

#[test]
fn session_approval_auto_approves_the_same_command_later() {
    let mut rt = runtime(AskForApproval::Untrusted, false);
    let c = clock();
    rt.submit(user_input("run it"), &c);
    rt.on_tool_call(exec_call("call-1", "make test"), CommandClass::Trusted, &c);
    rt.submit(
        Op::ExecApproval {
            id: "call-1".to_string(),
            decision: rune_core::protocol::ReviewDecision::ApprovedForSession,
        },
        &c,
    );
    rt.on_tool_finished("call-1".to_string(), 0, true, "ok".to_string(), &c);
    drain(&mut rt);
    rt.on_tool_call(exec_call("call-2", "make test"), CommandClass::Trusted, &c);
    let events = drain(&mut rt);
    assert!(matches!(
        events.last(),
        Some(EventMsg::ExecBegin { call_id, .. }) if call_id == "call-2"
    ));
}

#[test]
fn interrupt_acknowledges_within_the_same_step_and_the_turn_stays_silent() {
    let mut rt = runtime(AskForApproval::Never, false);
    let c = clock();
    rt.submit(user_input("think hard"), &c);
    drain(&mut rt);
    rt.submit(Op::Interrupt, &c);
    let events = drain(&mut rt);
    assert_eq!(
        events,
        vec![EventMsg::TurnComplete {
            interrupted: true,
            token_usage: None
        }]
    );
    assert_eq!(rt.agent_status(), AgentStatus::Idle);
    // Late stream items from the canceled turn produce nothing.
    rt.on_model_item(
        ResponseItem::AssistantMessage {
            text: "stale".to_string(),
        },
        &c,
    );
    rt.on_model_completed(None, false, &c);
    assert!(drain(&mut rt).is_empty());
}

#[test]
fn override_turn_context_touches_no_file_and_queues_nothing() {
    let mut rt = runtime(AskForApproval::Never, false);
    let c = clock();
    let lines_before = rt.recorder.lines.len();
    rt.submit(
        Op::OverrideTurnContext {
            context: TurnContextOverride {
                model: Some("o3".to_string()),
                effort: Some(rune_core::protocol::ReasoningEffort::High),
                sandbox_policy: None,
                approval_policy: None,
                personality: None,
                cwd: None,
            },
        },
        &c,
    );
    assert_eq!(rt.recorder.lines.len(), lines_before);
    assert!(rt.recorder.persisted_path.is_none());
    assert_eq!(rt.context.model, "o3");
    assert_eq!(
        rt.context.effort,
        Some(rune_core::protocol::ReasoningEffort::High)
    );
    assert!(drain(&mut rt).is_empty());

    // An override with every field absent is a no-op.
    let model_before = rt.context.model.clone();
    rt.submit(
        Op::OverrideTurnContext {
            context: TurnContextOverride {
                model: None,
                effort: None,
                sandbox_policy: None,
                approval_policy: None,
                personality: None,
                cwd: None,
            },
        },
        &c,
    );
    assert_eq!(rt.context.model, model_before);
    assert!(rt.recorder.persisted_path.is_none());
    assert_eq!(rt.recorder.lines.len(), lines_before);
}

#[test]
fn queued_turns_wait_for_the_pump() {
    let mut rt = runtime(AskForApproval::Never, false);
    let c = clock();
    rt.submit(user_input("first"), &c);
    rt.submit(user_input("second"), &c);
    drain(&mut rt);
    assert_eq!(rt.queued.len(), 1);
    rt.on_model_completed(None, false, &c);
    drain(&mut rt);
    rt.pump(&c);
    let events = drain(&mut rt);
    assert_eq!(
        events,
        vec![EventMsg::TurnStarted {
            turn_id: "turn-1".to_string()
        }]
    );
    assert!(rt.queued.is_empty());
}

#[test]
fn completion_after_a_tool_result_continues_the_turn() {
    let mut rt = runtime(AskForApproval::Never, false);
    let c = clock();
    rt.submit(user_input("go"), &c);
    drain(&mut rt);
    rt.on_model_completed(None, true, &c);
    assert!(drain(&mut rt).is_empty());
    assert_eq!(rt.agent_status(), AgentStatus::Working);
    rt.on_model_completed(None, false, &c);
    let events = drain(&mut rt);
    assert_eq!(
        events,
        vec![EventMsg::TurnComplete {
            interrupted: false,
            token_usage: None
        }]
    );
}

#[test]
fn shutdown_cancels_and_acknowledges() {
    let mut rt = runtime(AskForApproval::Never, false);
    let c = clock();
    rt.submit(user_input("work"), &c);
    drain(&mut rt);
    let sid = rt.submit(Op::Shutdown, &c);
    let events = drain(&mut rt);
    assert_eq!(
        events,
        vec![
            EventMsg::TurnComplete {
                interrupted: true,
                token_usage: None
            },
            EventMsg::ShutdownComplete,
        ]
    );
    assert_eq!(sid, "sub-1");
    assert!(rt.shutdown_complete);
    assert_eq!(rt.agent_status(), AgentStatus::ShuttingDown);
}

#[test]
fn events_and_rollout_lines_tell_the_same_story() {
    let mut rt = runtime(AskForApproval::Never, false);
    let c = clock();
    rt.submit(user_input("go"), &c);
    rt.on_model_item(
        ResponseItem::AssistantMessage {
            text: "working".to_string(),
        },
        &c,
    );
    rt.on_model_completed(None, false, &c);
    let journaled: Vec<_> = rt
        .recorder
        .lines
        .iter()
        .filter_map(|l| match &l.item {
            RolloutItem::EventLine(e) => Some(e.clone()),
            _ => None,
        })
        .collect();
    let mut delivered = Vec::new();
    while let Some(e) = rt.next_event() {
        delivered.push(e);
    }
    assert_eq!(journaled, delivered);
    assert_eq!(delivered.len(), 3);
    assert!(delivered.iter().all(|e| e.id == "turn-0"));
}

#[test]
fn steering_requires_the_right_turn_id() {
    let mut rt = runtime(AskForApproval::Never, false);
    let c = clock();
    rt.submit(user_input("go"), &c);
    let items = vec![UserInput {
        text: "also this".to_string(),
    }];
    let wrong = "turn-7".to_string();
    assert_eq!(
        rt.steer_input(items.clone(), Some(&wrong)),
        Err(SteerInputError::TurnMismatch)
    );
    let right = "turn-0".to_string();
    assert_eq!(rt.steer_input(items, Some(&right)), Ok("turn-0".to_string()));
    rt.on_model_completed(None, false, &c);
    let idle = rt.steer_input(Vec::new(), None);
    assert_eq!(idle, Err(SteerInputError::TurnMismatch));
}

#[test]
fn patch_approval_requests_carry_the_proposed_changes() {
    let mut rt = runtime(AskForApproval::Untrusted, false);
    let c = clock();
    rt.submit(user_input("patch it"), &c);
    drain(&mut rt);
    let changes = vec![
        FileChangeEntry {
            path: "src/lib.rs".to_string(),
            change: FileChange::Update {
                unified_diff: "@@ -1 +1 @@".to_string(),
            },
        },
        FileChangeEntry {
            path: "README.md".to_string(),
            change: FileChange::Delete,
        },
    ];
    rt.on_tool_call(
        ToolCallRequest {
            kind: ToolKind::Patch,
            call_id: "call-p".to_string(),
            command: "apply_patch".to_string(),
            cwd: "/work".to_string(),
            parsed_cmd: Vec::new(),
            reason: Some("needs write access".to_string()),
            grant_root: Some("/work".to_string()),
            changes: changes.clone(),
        },
        CommandClass::Restricted,
        &c,
    );
    let events = drain(&mut rt);
    match events.last() {
        Some(EventMsg::PatchApprovalRequest {
            call_id,
            reason,
            grant_root,
            changes: ch,
        }) => {
            assert_eq!(call_id, "call-p");
            assert_eq!(reason.as_deref(), Some("needs write access"));
            assert_eq!(grant_root.as_deref(), Some("/work"));
            assert_eq!(ch, &changes);
        }
        other => panic!("expected PatchApprovalRequest, got {other:?}"),
    }
    rt.submit(
        Op::PatchApproval {
            id: "call-p".to_string(),
            decision: rune_core::protocol::ReviewDecision::Approved,
        },
        &c,
    );
    let events = drain(&mut rt);
    assert!(matches!(
        events.last(),
        Some(EventMsg::PatchBegin { call_id }) if call_id == "call-p"
    ));
}

#[test]
fn model_errors_end_the_turn_but_not_the_thread() {
    let mut rt = runtime(AskForApproval::Never, false);
    let c = clock();
    rt.submit(user_input("go"), &c);
    drain(&mut rt);
    rt.on_model_error("stream gave up".to_string(), &c);
    let events = drain(&mut rt);
    assert_eq!(
        events,
        vec![EventMsg::Error {
            message: "stream gave up".to_string()
        }]
    );
    assert_eq!(rt.agent_status(), AgentStatus::Idle);
    assert!(!rt.shutdown_complete);
    // An error while idle is a no-op, and the thread still takes new turns.
    rt.on_model_error("late".to_string(), &c);
    assert!(drain(&mut rt).is_empty());
    rt.submit(user_input("again"), &c);
    let events = drain(&mut rt);
    assert_eq!(
        events,
        vec![EventMsg::TurnStarted {
            turn_id: "turn-1".to_string()
        }]
    );
}

#[test]
fn session_approval_never_overrides_a_forbidden_classification() {
    let mut rt = runtime(AskForApproval::Untrusted, false);
    let c = clock();
    rt.submit(user_input("run it"), &c);
    rt.on_tool_call(exec_call("call-1", "make deploy"), CommandClass::Trusted, &c);
    rt.submit(
        Op::ExecApproval {
            id: "call-1".to_string(),
            decision: rune_core::protocol::ReviewDecision::ApprovedForSession,
        },
        &c,
    );
    rt.on_tool_finished("call-1".to_string(), 0, true, "ok".to_string(), &c);
    drain(&mut rt);
    // The same command string, now classified forbidden, is refused.
    rt.on_tool_call(exec_call("call-2", "make deploy"), CommandClass::Forbidden, &c);
    assert!(drain(&mut rt).is_empty());
    assert!(rt.recorder.lines.iter().any(|l| matches!(
        &l.item,
        RolloutItem::ResponseItem(ResponseItem::ToolResult { call_id, is_error, .. })
            if call_id == "call-2" && *is_error
    )));
}
