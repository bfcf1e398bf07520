use rune_core::config::Config;
use rune_core::config::Features;
use rune_core::config::McpServerConfig;
use rune_core::error::RuneErr;
use rune_core::manager::check_required_mcp_servers;
use rune_core::manager::find_thread_path_by_id;
use rune_core::manager::find_thread_path_by_name;
use rune_core::manager::start_thread;
use rune_core::manager::ThreadIndexEntry;
use rune_core::protocol::AskForApproval;
use rune_core::protocol::EventMsg;
use rune_core::protocol::SandboxPolicy;
use rune_core::protocol::SessionSource;
use rune_core::protocol::ThreadId;
use rune_core::runtime::Clock;
use rune_core::runtime::TurnContext;

fn clock() -> Clock {
    Clock {
        timestamp: "2030-12-30T00:00:00Z".to_string(),
        date_dir: "2030/12/30".to_string(),
        file_ts: "2030-12-30T00-00-00".to_string(),
    }
}

fn config(ephemeral: bool, servers: Vec<McpServerConfig>) -> Config {
    Config {
        model: Some("gpt-5.1".to_string()),
        model_provider: "mock_provider".to_string(),
        model_supports_reasoning_summaries: None,
        model_context_window: None,
        model_auto_compact_token_limit: None,
        tool_output_token_limit: None,
        base_instructions: None,
        features: Features {
            unified_exec: false,
            shell_tool: false,
            sqlite: false,
            personality: false,
            enable_request_compression: false,
        },
        rune_home: "/home/u/.rune".to_string(),
        ephemeral,
        mcp_servers: servers,
    }
}

fn context() -> TurnContext {
    TurnContext {
        model: "gpt-5.1".to_string(),
        model_provider_id: "mock_provider".to_string(),
        effort: None,
        approval_policy: AskForApproval::OnRequest,
        sandbox_policy: SandboxPolicy::ReadOnly,
        cwd: "/work".to_string(),
        personality: None,
        session_source: SessionSource::Mcp,
    }
}

fn server(name: &str, required: bool) -> McpServerConfig {
    McpServerConfig {
        name: name.to_string(),
        command: "does-not-exist".to_string(),
        required,
    }
}

#[test]
fn thread_start_creates_thread_and_emits_started() {
    let cfg = config(false, Vec::new());
    let nt = start_thread(
        &cfg,
        ThreadId {
            id: "t-77".to_string(),
        },
        "gpt-5.1".to_string(),
        "rune_exec".to_string(),
        "0.1.0".to_string(),
        context(),
        &Vec::new(),
        &clock(),
    )
    .expect("start should succeed");
    assert!(!nt.thread.rune.thread_id.id.is_empty(), "thread id should not be empty");
    let path = nt.rollout_path.expect("thread path should be present");
    assert!(path.starts_with('/'), "thread path should be absolute");
    assert_eq!(
        path,
        "/home/u/.rune/sessions/2030/12/30/rollout-2030-12-30T00-00-00-t-77.jsonl"
    );
    assert!(
        nt.thread.rune.recorder.persisted_path.is_none(),
        "fresh thread rollout should not be materialized until first user message"
    );
    match nt.session_configured.msg {
        EventMsg::SessionConfigured {
            thread_id,
            model,
            model_provider_id,
        } => {
            assert_eq!(thread_id.id, "t-77");
            assert_eq!(model, "gpt-5.1");
            assert_eq!(model_provider_id, "mock_provider");
        }
        other => panic!("expected SessionConfigured, got {other:?}"),
    }
}

#[test]
fn thread_start_ephemeral_remains_pathless() {
    let cfg = config(true, Vec::new());
    let nt = start_thread(
        &cfg,
        ThreadId {
            id: "t-e".to_string(),
        },
        "gpt-5.1".to_string(),
        "rune_exec".to_string(),
        "0.1.0".to_string(),
        context(),
        &Vec::new(),
        &clock(),
    )
    .expect("start should succeed");
    assert!(
        nt.rollout_path.is_none(),
        "ephemeral threads should not expose a path"
    );
    assert!(nt.thread.rollout_path.is_none());
}

#[test]
fn thread_start_fails_when_required_mcp_server_fails_to_initialize() {
    let cfg = config(
        false,
        vec![server("required_broken", true), server("optional_broken", false)],
    );
    let failures = vec![
        "required_broken".to_string(),
        "optional_broken".to_string(),
    ];
    let err = start_thread(
        &cfg,
        ThreadId {
            id: "t-x".to_string(),
        },
        "gpt-5.1".to_string(),
        "rune_exec".to_string(),
        "0.1.0".to_string(),
        context(),
        &failures,
        &clock(),
    )
    .expect_err("start must fail");
    let RuneErr::Fatal(m) = err else {
        panic!("expected Fatal");
    };
    assert!(
        m.contains("required MCP servers failed to initialize"),
        "unexpected error message: {m}"
    );
    assert!(m.contains("required_broken"), "unexpected error message: {m}");
    assert!(!m.contains("optional_broken"), "unexpected error message: {m}");
}

#[test]
fn non_required_failures_do_not_block_startup() {
    let cfg = config(false, vec![server("flaky", false)]);
    let failures = vec!["flaky".to_string()];
    assert!(check_required_mcp_servers(&cfg.mcp_servers, &failures).is_ok());
}

#[test]
fn find_prefers_the_database_path_by_id() {
    let db = vec![ThreadIndexEntry {
        id: "abc".to_string(),
        thread_name: None,
        path: "sessions/2030/12/30/rollout-2030-12-30T00-00-00-abc.jsonl".to_string(),
    }];
    let scanned = vec!["sessions/2031/01/01/rollout-2031-01-01T00-00-00-abc.jsonl".to_string()];
    assert_eq!(
        find_thread_path_by_id(&db, &scanned, "abc"),
        Some("sessions/2030/12/30/rollout-2030-12-30T00-00-00-abc.jsonl".to_string())
    );
}

#[test]
fn find_falls_back_to_the_scanned_tree_when_the_database_misses() {
    let db = vec![ThreadIndexEntry {
        id: "unrelated".to_string(),
        thread_name: None,
        path: "sessions/2030/12/30/rollout-2030-12-30T00-00-00-unrelated.jsonl".to_string(),
    }];
    let scanned = vec![
        "sessions/2030/12/30/notes.txt".to_string(),
        "sessions/2030/12/30/rollout-2030-12-30T00-00-00-abc.jsonl".to_string(),
    ];
    assert_eq!(
        find_thread_path_by_id(&db, &scanned, "abc"),
        Some("sessions/2030/12/30/rollout-2030-12-30T00-00-00-abc.jsonl".to_string())
    );
}

#[test]
fn find_locates_archived_rollouts_too() {
    let scanned =
        vec!["archived_sessions/2030/12/30/rollout-2030-12-30T00-00-00-abc.jsonl".to_string()];
    assert_eq!(
        find_thread_path_by_id(&Vec::new(), &scanned, "abc"),
        Some("archived_sessions/2030/12/30/rollout-2030-12-30T00-00-00-abc.jsonl".to_string())
    );
}

#[test]
fn find_returns_none_for_a_thread_never_persisted() {
    let scanned = vec!["sessions/2030/12/30/rollout-2030-12-30T00-00-00-xyz.jsonl".to_string()];
    assert_eq!(find_thread_path_by_id(&Vec::new(), &scanned, "abc"), None);
}

#[test]
fn find_locates_rollout_file_by_thread_name() {
    let db = vec![
        ThreadIndexEntry {
            id: "abc".to_string(),
            thread_name: None,
            path: "sessions/2030/12/30/rollout-2030-12-30T00-00-00-abc.jsonl".to_string(),
        },
        ThreadIndexEntry {
            id: "def".to_string(),
            thread_name: Some("named thread".to_string()),
            path: "sessions/2030/12/30/rollout-2030-12-30T00-00-00-def.jsonl".to_string(),
        },
    ];
    assert_eq!(
        find_thread_path_by_name(&db, "named thread"),
        Some("sessions/2030/12/30/rollout-2030-12-30T00-00-00-def.jsonl".to_string())
    );
    assert_eq!(find_thread_path_by_name(&db, "other name"), None);
    assert_eq!(find_thread_path_by_name(&db, "abc"), None);
}
