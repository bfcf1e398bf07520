use rune_core::error::RuneErr;
use rune_core::protocol::ResponseItem;
use rune_core::protocol::ThreadId;
use rune_core::recorder::RolloutItem;
use rune_core::recorder::RolloutLine;
use rune_core::recorder::RolloutRecorder;
use rune_core::recorder::SessionMetaLine;
use rune_core::rollout::map_rollout_io_error;
use rune_core::rollout::map_session_init_error;
use rune_core::rollout::IoCause;
use rune_core::rollout::IoErrorKind;

#[test]
fn not_found_cause_gets_the_create_directory_hint() {
    let cause = IoCause {
        kind: IoErrorKind::NotFound,
        text: "No such file or directory (os error 2)".to_string(),
    };
    let r = map_rollout_io_error(&cause, "/home/user/.rune").unwrap();
    let RuneErr::Fatal(m) = r else {
        panic!("expected Fatal");
    };
    assert_eq!(
        m,
        "Session storage missing at /home/user/.rune/sessions. Create the directory or choose a \
         different Rune home. (underlying error: No such file or directory (os error 2))"
    );
}

#[test]
fn permission_denied_cause_names_both_paths() {
    let cause = IoCause {
        kind: IoErrorKind::PermissionDenied,
        text: "denied".to_string(),
    };
    let r = map_rollout_io_error(&cause, "/h").unwrap();
    let RuneErr::Fatal(m) = r else {
        panic!("expected Fatal");
    };
    assert!(m.contains("/h/sessions"));
    assert!(m.contains("sudo chown -R $(whoami) /h"));
    assert!(m.contains("(underlying error: denied)"));
}

#[test]
fn unmapped_cause_is_skipped() {
    let cause = IoCause {
        kind: IoErrorKind::Other,
        text: "weird".to_string(),
    };
    assert!(map_rollout_io_error(&cause, "/h").is_none());
}

#[test]
fn session_init_error_picks_the_first_io_cause() {
    let io = std::io::Error::new(std::io::ErrorKind::PermissionDenied, "locked down");
    let err = anyhow::Error::new(io).context("creating session file");
    let r = map_session_init_error(&err, "/home/u/.rune");
    let RuneErr::Fatal(m) = r else {
        panic!("expected Fatal");
    };
    assert!(
        m.contains("Rune cannot access session files at /home/u/.rune/sessions"),
        "unexpected message: {m}"
    );
}

#[test]
fn session_init_error_without_io_cause_is_generic() {
    let err = anyhow::Error::msg("handshake exploded");
    let r = map_session_init_error(&err, "/home/u/.rune");
    let RuneErr::Fatal(m) = r else {
        panic!("expected Fatal");
    };
    assert_eq!(m, "Failed to initialize session: handshake exploded");
}

fn meta(id: &str) -> SessionMetaLine {
    SessionMetaLine {
        id: ThreadId { id: id.to_string() },
        cwd: "/work".to_string(),
        originator: "rune_exec".to_string(),
        cli_version: "0.1.0".to_string(),
        model_provider: "mock_provider".to_string(),
    }
}

#[test]
fn persisting_writes_session_meta_first_and_names_the_file_by_id() {
    let mut r = RolloutRecorder::new(false, "/home/u/.rune".to_string());
    r.append(RolloutLine {
        timestamp: "t0".to_string(),
        item: RolloutItem::ResponseItem(ResponseItem::AssistantMessage {
            text: "hi".to_string(),
        }),
    });
    r.persist(
        meta("abc-123"),
        "t1".to_string(),
        "2030/12/30",
        "2030-12-30T00-00-00",
    );
    assert_eq!(
        r.persisted_path.as_deref(),
        Some("/home/u/.rune/sessions/2030/12/30/rollout-2030-12-30T00-00-00-abc-123.jsonl")
    );
    assert!(matches!(
        r.lines[0].item,
        RolloutItem::SessionMeta(ref m) if m.id.id == "abc-123"
    ));
    assert_eq!(r.lines.len(), 2);
}

#[test]
fn response_items_round_trip_through_the_journal() {
    let mut r = RolloutRecorder::new(true, "/h".to_string());
    let items = vec![
        ResponseItem::AssistantMessage {
            text: "one".to_string(),
        },
        ResponseItem::ToolCall {
            call_id: "c1".to_string(),
            name: "shell".to_string(),
            arguments: "{}".to_string(),
        },
        ResponseItem::ToolResult {
            call_id: "c1".to_string(),
            output: "done".to_string(),
            is_error: false,
        },
    ];
    for (i, item) in items.iter().enumerate() {
        r.append(RolloutLine {
            timestamp: format!("t{i}"),
            item: RolloutItem::ResponseItem(item.clone()),
        });
    }
    let back = r.read_response_items();
    assert_eq!(back, items);
}

#[test]
fn ephemeral_recorder_never_has_a_path() {
    let r = RolloutRecorder::new(true, "/h".to_string());
    assert!(r.ephemeral);
    assert!(r.persisted_path.is_none());
    assert!(r.lines.is_empty());
}
