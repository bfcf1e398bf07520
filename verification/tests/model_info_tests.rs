use rune_core::config::Config;
use rune_core::config::Features;
use rune_core::model_info::find_model_info_for_slug;
use rune_core::model_info::with_config_overrides;
use rune_core::model_info::ApplyPatchToolType;
use rune_core::model_info::BaseInstructions;
use rune_core::model_info::ConfigShellToolType;
use rune_core::model_info::InstructionsKind;
use rune_core::model_info::TruncationMode;
use rune_core::protocol::ReasoningEffort;
use rune_core::protocol::Verbosity;

fn base_config() -> Config {
    Config {
        model: None,
        model_provider: "mock_provider".to_string(),
        model_supports_reasoning_summaries: None,
        model_context_window: None,
        model_auto_compact_token_limit: None,
        tool_output_token_limit: None,
        base_instructions: None,
        features: Features {
            unified_exec: false,
            shell_tool: false,
            sqlite: false,
            personality: false,
            enable_request_compression: false,
        },
        rune_home: "/home/user/.rune".to_string(),
        ephemeral: false,
        mcp_servers: Vec::new(),
    }
}

#[test]
fn gpt_51_entry_has_expected_fields() {
    let m = find_model_info_for_slug("gpt-5.1");
    assert_eq!(m.slug, "gpt-5.1");
    assert_eq!(m.display_name, "gpt-5.1");
    assert_eq!(m.context_window, Some(272000));
    assert_eq!(m.shell_type, ConfigShellToolType::ShellCommand);
    assert!(m.supports_parallel_tool_calls);
    assert!(m.supports_reasoning_summaries);
    assert!(m.support_verbosity);
    assert_eq!(m.default_verbosity, Some(Verbosity::Low));
    assert_eq!(m.default_reasoning_level, Some(ReasoningEffort::Medium));
    assert_eq!(m.apply_patch_tool_type, Some(ApplyPatchToolType::Freeform));
    assert_eq!(m.truncation_policy.mode, TruncationMode::Bytes);
    assert_eq!(m.truncation_policy.limit, 10000);
    assert_eq!(m.effective_context_window_percent, 95);
    assert_eq!(m.supported_reasoning_levels.len(), 3);
}

#[test]
fn o3_and_small_models_use_apply_patch_instructions() {
    let m = find_model_info_for_slug("o3-mini");
    assert_eq!(m.context_window, Some(200000));
    assert_eq!(
        m.base_instructions,
        BaseInstructions::Preset(InstructionsKind::BaseWithApplyPatch)
    );
    assert!(m.supports_reasoning_summaries);
    let m = find_model_info_for_slug("gpt-4.1-mini");
    assert_eq!(m.context_window, Some(1047576));
    assert!(!m.supports_reasoning_summaries);
    let m = find_model_info_for_slug("gpt-3.5-turbo");
    assert_eq!(m.context_window, Some(16385));
}

#[test]
fn rune_slugs_pick_token_truncation_and_shell_command() {
    let m = find_model_info_for_slug("gpt-5.1-rune-max");
    assert_eq!(m.truncation_policy.mode, TruncationMode::Tokens);
    assert_eq!(m.shell_type, ConfigShellToolType::ShellCommand);
    assert!(!m.supports_parallel_tool_calls);
    assert_eq!(m.supported_reasoning_levels.len(), 4);
    assert_eq!(
        m.supported_reasoning_levels[3].effort,
        ReasoningEffort::XHigh
    );
    let m = find_model_info_for_slug("gpt-5.2-rune");
    assert!(m.supports_parallel_tool_calls);
    assert!(m.model_messages.is_some());
}

#[test]
fn mini_rune_slugs_are_distinguished_from_full_ones() {
    let full = find_model_info_for_slug("gpt-5-rune-high");
    let mini = find_model_info_for_slug("gpt-5-rune-mini");
    assert_eq!(full.supported_reasoning_levels.len(), 3);
    assert_eq!(mini.supported_reasoning_levels.len(), 3);
    assert_eq!(full.truncation_policy.mode, TruncationMode::Tokens);
    assert_eq!(mini.truncation_policy.mode, TruncationMode::Tokens);
}

#[test]
fn unknown_slug_degrades_gracefully() {
    let m = find_model_info_for_slug("mystery-model");
    assert_eq!(m.context_window, None);
    assert_eq!(m.supported_reasoning_levels.len(), 0);
    assert_eq!(m.default_reasoning_level, None);
    assert_eq!(m.slug, "mystery-model");
}

#[test]
fn offline_model_info_without_tool_output_override() {
    let m = find_model_info_for_slug("gpt-5.1");
    let m = with_config_overrides(m, &base_config());
    assert_eq!(m.truncation_policy.mode, TruncationMode::Bytes);
    assert_eq!(m.truncation_policy.limit, 10000);
}

#[test]
fn offline_model_info_with_tool_output_override() {
    let mut config = base_config();
    config.tool_output_token_limit = Some(123);
    let m = find_model_info_for_slug("gpt-5.1-rune");
    let m = with_config_overrides(m, &config);
    assert_eq!(m.truncation_policy.mode, TruncationMode::Tokens);
    assert_eq!(m.truncation_policy.limit, 123);
    let mut config = base_config();
    config.tool_output_token_limit = Some(10000);
    let m = find_model_info_for_slug("gpt-5.1");
    let m = with_config_overrides(m, &config);
    assert_eq!(m.truncation_policy.mode, TruncationMode::Bytes);
    assert_eq!(m.truncation_policy.limit, 40000);
}

#[test]
fn custom_instructions_drop_personality_messages() {
    let mut config = base_config();
    config.base_instructions = Some("be terse".to_string());
    config.features.personality = true;
    let m = find_model_info_for_slug("gpt-5.2-rune");
    assert!(m.model_messages.is_some());
    let m = with_config_overrides(m, &config);
    assert_eq!(
        m.base_instructions,
        BaseInstructions::Custom("be terse".to_string())
    );
    assert!(m.model_messages.is_none());
}

#[test]
fn personality_messages_survive_only_with_the_feature_on() {
    let mut config = base_config();
    config.features.personality = true;
    let m = find_model_info_for_slug("gpt-5.2-rune");
    let m = with_config_overrides(m, &config);
    assert!(m.model_messages.is_some());
    let config = base_config();
    let m = find_model_info_for_slug("gpt-5.2-rune");
    let m = with_config_overrides(m, &config);
    assert!(m.model_messages.is_none());
}

#[test]
fn context_window_override_wins() {
    let mut config = base_config();
    config.model_context_window = Some(10000);
    let m = find_model_info_for_slug("gpt-5.1");
    let m = with_config_overrides(m, &config);
    assert_eq!(m.context_window, Some(10000));
}
