use rune_core::client::should_compress_request;
use rune_core::context::compact_history;
use rune_core::context::effective_context_window;
use rune_core::context::should_compact;
use rune_core::protocol::ResponseItem;
use rune_core::client::AuthKind;
use rune_core::config::managed_config_path_from_value;
use rune_core::config::Feature;
use rune_core::config::FeatureStage;
use rune_core::config::Features;
use rune_core::home::env_is_set;
use rune_core::home::find_rune_home_from_env;
use rune_core::home::HomeOutcome;
use rune_core::home::PathProbe;
use rune_core::is_command_cwd_root;
use rune_core::processor::initialize_result;
use rune_core::processor::route_tool_call;
use rune_core::processor::unknown_tool_message;
use rune_core::processor::RequestMap;
use rune_core::processor::ToolRoute;
use rune_core::prompt::model_switch_messages;
use rune_core::protocol::failed_to_initialize_message;
use rune_core::protocol::is_terminal_event;
use rune_core::protocol::AskForApproval;
use rune_core::protocol::EventMsg;
use rune_core::protocol::SandboxPolicy;
use rune_core::protocol::SessionSource;
use rune_core::protocol::ThreadId;
use rune_core::rollout::IoErrorKind;
use rune_core::runtime::ThreadRuntime;
use rune_core::runtime::TurnContext;
use rune_core::thread::RuneThread;

#[test]
fn compression_needs_account_bearer_auth_and_the_flag() {
    let mut features = Features {
        unified_exec: false,
        shell_tool: false,
        sqlite: false,
        personality: false,
        enable_request_compression: true,
    };
    assert!(should_compress_request(AuthKind::AccountBearer, &features));
    assert!(!should_compress_request(AuthKind::ApiKey, &features));
    assert!(!should_compress_request(AuthKind::NoAuth, &features));
    features.enable_request_compression = false;
    assert!(!should_compress_request(AuthKind::AccountBearer, &features));
}

#[test]
fn experimental_feature_list_returns_feature_metadata_with_stage() {
    assert_eq!(Feature::Sqlite.stage(), FeatureStage::UnderDevelopment);
    assert!(!Feature::Sqlite.listed_for_users());
    assert!(Feature::Sqlite.warns_when_enabled());
    assert!(Feature::UnifiedExec.listed_for_users());
    assert!(!Feature::UnifiedExec.warns_when_enabled());
    assert!(Feature::Personality.listed_for_users());
}

#[test]
fn managed_config_path_ignores_empty_values() {
    assert_eq!(managed_config_path_from_value(None), None);
    assert_eq!(managed_config_path_from_value(Some(String::new())), None);
    assert_eq!(
        managed_config_path_from_value(Some("/etc/rune/managed.toml".to_string())),
        Some("/etc/rune/managed.toml".to_string())
    );
}

#[test]
fn rune_home_decisions_match_the_documented_behaviour() {
    assert!(!env_is_set(None));
    assert!(!env_is_set(Some("")));
    assert!(env_is_set(Some("/x")));

    let r = find_rune_home_from_env(Some("/missing"), &PathProbe::Missing, None);
    let e = r.expect_err("missing RUNE_HOME");
    assert_eq!(e.kind, IoErrorKind::NotFound);
    assert_eq!(
        e.message,
        "RUNE_HOME points to \"/missing\", but that path does not exist"
    );

    let r = find_rune_home_from_env(Some("/f.txt"), &PathProbe::NotADirectory, None);
    let e = r.expect_err("file RUNE_HOME");
    assert!(e.message.contains("not a directory"), "unexpected error: {}", e.message);

    let r = find_rune_home_from_env(Some("/ok"), &PathProbe::Directory, None);
    assert_eq!(r, Ok(HomeOutcome::CanonicalizeEnvPath("/ok".to_string())));

    let r = find_rune_home_from_env(None, &PathProbe::Missing, Some("/home/u"));
    assert_eq!(r, Ok(HomeOutcome::DefaultPath("/home/u/.rune".to_string())));

    let r = find_rune_home_from_env(None, &PathProbe::Missing, None);
    let e = r.expect_err("no home dir");
    assert_eq!(e.message, "Could not find home directory");
}

#[test]
fn initialize_happens_once_and_records_the_client() {
    let info = initialize_result(false, "vscode", "1.2.3", "0.1.0".to_string()).unwrap();
    assert_eq!(info.server_name, "rune-mcp-server");
    assert_eq!(info.title, "Rune");
    assert_eq!(info.version, "0.1.0");
    assert_eq!(info.user_agent_suffix, "vscode; 1.2.3");
    let err = initialize_result(true, "vscode", "1.2.3", "0.1.0".to_string()).unwrap_err();
    assert_eq!(err, "initialize called more than once");
}

#[test]
fn tool_calls_route_by_name() {
    assert_eq!(route_tool_call("rune"), ToolRoute::RuneTool);
    assert_eq!(route_tool_call("rune-reply"), ToolRoute::RuneReplyTool);
    assert_eq!(route_tool_call("other"), ToolRoute::Unknown);
    assert_eq!(unknown_tool_message("other"), "Unknown tool 'other'");
}

#[test]
fn cancellations_consume_the_request_entry_only_once_confirmed() {
    let mut map = RequestMap::new();
    map.insert(
        "req-1".to_string(),
        ThreadId {
            id: "t-9".to_string(),
        },
    );
    map.insert(
        "req-2".to_string(),
        ThreadId {
            id: "t-10".to_string(),
        },
    );
    // Looking the thread up leaves the map alone: the entry survives until
    // the interrupt was really submitted.
    let t = map.thread_for_cancel("req-1").expect("registered");
    assert_eq!(t.id, "t-9");
    let again = map.thread_for_cancel("req-1").expect("still registered");
    assert_eq!(again.id, "t-9");
    assert!(map.thread_for_cancel("req-0").is_none());

    assert!(map.confirm_cancel("req-1"));
    assert!(map.thread_for_cancel("req-1").is_none());
    assert!(!map.confirm_cancel("req-1"));
    // The unrelated entry survived the removal.
    assert_eq!(map.thread_for_cancel("req-2").expect("kept").id, "t-10");
}

#[test]
fn model_switch_preamble_appears_only_after_a_change() {
    let prev = "gpt-5.2-rune".to_string();
    let msgs = model_switch_messages(Some(&prev), "gpt-5.1-rune-max");
    assert_eq!(msgs.len(), 1);
    assert!(msgs[0].text.contains("<model_switch>"));
    assert!(msgs[0]
        .text
        .contains("The user was previously using a different model."));
    assert!(!msgs[0].text.contains("<personality_spec>"));

    let same = model_switch_messages(Some(&prev), "gpt-5.2-rune");
    assert!(same.is_empty());
    let fresh = model_switch_messages(None, "gpt-5.2-rune");
    assert!(fresh.is_empty());
}

#[test]
fn agent_loop_helpers_classify_events_and_render_failures() {
    assert!(is_terminal_event(&EventMsg::ShutdownComplete));
    assert!(!is_terminal_event(&EventMsg::TurnStarted {
        turn_id: "turn-0".to_string()
    }));
    assert_eq!(
        failed_to_initialize_message("no provider"),
        "Failed to initialize rune: no provider"
    );
}

#[test]
fn cwd_root_comparison_is_plain_equality_of_canonical_paths() {
    assert!(is_command_cwd_root(
        &"/work/repo".to_string(),
        &"/work/repo".to_string()
    ));
    assert!(!is_command_cwd_root(
        &"/work/repo".to_string(),
        &"/work/repo/sub".to_string()
    ));
}

#[test]
fn thread_handle_exposes_paths_and_snapshots() {
    let ctx = TurnContext {
        model: "gpt-5.1".to_string(),
        model_provider_id: "mock_provider".to_string(),
        effort: None,
        approval_policy: AskForApproval::OnRequest,
        sandbox_policy: SandboxPolicy::WorkspaceWrite {
            grant_roots: vec!["/work".to_string()],
        },
        cwd: "/work".to_string(),
        personality: None,
        session_source: SessionSource::Tui,
    };
    let rt = ThreadRuntime::new(
        ThreadId {
            id: "t-1".to_string(),
        },
        "rune_tui".to_string(),
        "0.1.0".to_string(),
        ctx,
        false,
        "/home/u/.rune".to_string(),
    );
    let thread = RuneThread::new(rt, Some("/home/u/.rune/sessions/x.jsonl".to_string()));
    assert_eq!(
        thread.rollout_path(),
        Some("/home/u/.rune/sessions/x.jsonl".to_string())
    );
    assert!(thread.state_db().is_none());
    let snap = thread.config_snapshot();
    assert_eq!(snap.model, "gpt-5.1");
    assert_eq!(snap.model_provider_id, "mock_provider");
    assert_eq!(snap.approval_policy, AskForApproval::OnRequest);
    assert_eq!(snap.cwd, "/work");
    match snap.sandbox_policy {
        SandboxPolicy::WorkspaceWrite { grant_roots } => {
            assert_eq!(grant_roots, vec!["/work".to_string()]);
        }
        other => panic!("expected WorkspaceWrite, got {other:?}"),
    }
}

#[test]
fn compaction_triggers_at_the_effective_window() {
    assert_eq!(effective_context_window(272000, 95), 258400);
    assert!(!should_compact(258399, Some(272000), 95, None));
    assert!(should_compact(258400, Some(272000), 95, None));
    assert!(should_compact(1000, Some(272000), 95, Some(1000)));
    assert!(!should_compact(999, Some(272000), 95, Some(1000)));
    assert!(!should_compact(i64::MAX - 1, None, 95, None));

    let items = vec![
        ResponseItem::AssistantMessage { text: "a".to_string() },
        ResponseItem::AssistantMessage { text: "b".to_string() },
        ResponseItem::AssistantMessage { text: "c".to_string() },
    ];
    let summary = ResponseItem::AssistantMessage { text: "summary of a, b".to_string() };
    let compacted = compact_history(items, 2, summary.clone());
    assert_eq!(
        compacted,
        vec![summary, ResponseItem::AssistantMessage { text: "c".to_string() }]
    );
}

#[test]
fn find_rune_home_env_missing_path_is_fatal() {
    let err = find_rune_home_from_env(
        Some("/tmp/missing-rune-home"),
        &PathProbe::Missing,
        Some("/home/u"),
    )
    .expect_err("missing RUNE_HOME");
    assert_eq!(err.kind, IoErrorKind::NotFound);
    assert!(err.message.contains("RUNE_HOME"), "unexpected error: {}", err.message);
}

#[test]
fn find_rune_home_env_valid_directory_canonicalizes() {
    let resolved = find_rune_home_from_env(
        Some("/tmp/valid-rune-home"),
        &PathProbe::Directory,
        Some("/home/u"),
    )
    .expect("valid RUNE_HOME");
    assert_eq!(
        resolved,
        HomeOutcome::CanonicalizeEnvPath("/tmp/valid-rune-home".to_string())
    );
}

#[test]
fn find_rune_home_without_env_uses_default_home_dir() {
    let resolved = find_rune_home_from_env(None, &PathProbe::Missing, Some("/home/u"))
        .expect("default RUNE_HOME");
    assert_eq!(resolved, HomeOutcome::DefaultPath("/home/u/.rune".to_string()));
}
