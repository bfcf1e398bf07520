//! Offline model metadata: the per-slug defaults table and the configuration
//! overrides applied on top of it.
use vstd::prelude::*;
use vstd::string::StringExecFns;
use crate::config::Config;
use crate::config::Feature;
use crate::protocol::ReasoningEffort;
use crate::protocol::Verbosity;
use crate::text::seq_contains_sub;
use crate::text::str_contains;
use crate::text::str_starts_with;

verus! {

/// Which shell tool the model is offered.
#[derive(Clone, Copy, Debug, PartialEq, Eq, Structural)]
pub enum ConfigShellToolType {
    DefaultShell,
    Local,
    ShellCommand,
    UnifiedExec,
}

/// Whether the model is shown in user-facing lists.
#[derive(Clone, Copy, Debug, PartialEq, Eq, Structural)]
pub enum ModelVisibility {
    Hidden,
    Listed,
}

/// Which flavour of the patch tool the model uses.
#[derive(Clone, Copy, Debug, PartialEq, Eq, Structural)]
pub enum ApplyPatchToolType {
    Freeform,
    Function,
}

/// Whether tool output is truncated by bytes or by tokens.
#[derive(Clone, Copy, Debug, PartialEq, Eq, Structural)]
pub enum TruncationMode {
    Bytes,
    Tokens,
}

/// How much captured tool output is kept for the model.
#[derive(Clone, Copy, Debug, PartialEq, Eq, Structural)]
pub struct TruncationPolicyConfig {
    pub mode: TruncationMode,
    pub limit: i64,
}

impl TruncationPolicyConfig {
    pub fn bytes(limit: i64) -> (r: TruncationPolicyConfig)
        ensures
            r == (TruncationPolicyConfig { mode: TruncationMode::Bytes, limit }),
    {
        TruncationPolicyConfig { mode: TruncationMode::Bytes, limit }
    }

    pub fn tokens(limit: i64) -> (r: TruncationPolicyConfig)
        ensures
            r == (TruncationPolicyConfig { mode: TruncationMode::Tokens, limit }),
    {
        TruncationPolicyConfig { mode: TruncationMode::Tokens, limit }
    }
}

/// One reasoning level a model supports, with its description.
#[derive(Clone, Debug, PartialEq, Eq)]
pub struct ReasoningEffortPreset {
    pub effort: ReasoningEffort,
    pub description: String,
}

/// The built-in instruction sets a model can start from.
#[derive(Clone, Copy, Debug, PartialEq, Eq, Structural)]
pub enum InstructionsKind {
    Base,
    BaseWithApplyPatch,
    Gpt5Rune,
    Gpt51,
    Gpt52,
    Gpt51RuneMax,
    Gpt52Rune,
}

/// Base instructions for a model: a built-in set, or text the user supplied.
#[derive(Clone, Debug, PartialEq, Eq)]
pub enum BaseInstructions {
    Preset(InstructionsKind),
    Custom(String),
}

/// The per-model message templates (instruction template plus personality
/// variants) shipped alongside an instruction set.
#[derive(Clone, Copy, Debug, PartialEq, Eq, Structural)]
pub struct ModelMessages {
    pub template: InstructionsKind,
}

/// A kind of input the model accepts.
#[derive(Clone, Copy, Debug, PartialEq, Eq, Structural)]
pub enum InputModality {
    Text,
    Image,
}

/// Everything the runtime knows about one model slug.
#[derive(Clone, Debug)]
pub struct ModelInfo {
    pub slug: String,
    pub display_name: String,
    pub description: Option<String>,
    pub default_reasoning_level: Option<ReasoningEffort>,
    pub supported_reasoning_levels: Vec<ReasoningEffortPreset>,
    pub shell_type: ConfigShellToolType,
    pub visibility: ModelVisibility,
    pub supported_in_api: bool,
    pub priority: u64,
    pub upgrade: Option<String>,
    pub base_instructions: BaseInstructions,
    pub model_messages: Option<ModelMessages>,
    pub supports_reasoning_summaries: bool,
    pub support_verbosity: bool,
    pub default_verbosity: Option<Verbosity>,
    pub apply_patch_tool_type: Option<ApplyPatchToolType>,
    pub truncation_policy: TruncationPolicyConfig,
    pub supports_parallel_tool_calls: bool,
    pub context_window: Option<i64>,
    pub auto_compact_token_limit: Option<i64>,
    pub effective_context_window_percent: i64,
    pub experimental_supported_tools: Vec<String>,
    pub input_modalities: Vec<InputModality>,
}

pub const CONTEXT_WINDOW_272K: i64 = 272000;

/// The model families the defaults table distinguishes, in match order.
#[derive(Clone, Copy, Debug, PartialEq, Eq, Structural)]
pub enum ModelFamily {
    O3O4Mini,
    RuneMiniLatest,
    Gpt41,
    GptOss,
    Gpt4o,
    Gpt35,
    TestGpt5,
    ExpRune,
    Exp,
    Gpt52Rune,
    Gpt51RuneMax,
    Gpt5Rune,
    Gpt5RuneMini,
    Gpt52,
    Gpt51,
    Gpt5,
    Unknown,
}

/// Classify a slug into its family, testing prefixes in table order.
pub open spec fn slug_family(s: Seq<char>) -> ModelFamily {
    if "o3"@.is_prefix_of(s) || "o4-mini"@.is_prefix_of(s) {
        ModelFamily::O3O4Mini
    } else if "rune-mini-latest"@.is_prefix_of(s) {
        ModelFamily::RuneMiniLatest
    } else if "gpt-4.1"@.is_prefix_of(s) {
        ModelFamily::Gpt41
    } else if "gpt-oss"@.is_prefix_of(s) || "openai/gpt-oss"@.is_prefix_of(s) {
        ModelFamily::GptOss
    } else if "gpt-4o"@.is_prefix_of(s) {
        ModelFamily::Gpt4o
    } else if "gpt-3.5"@.is_prefix_of(s) {
        ModelFamily::Gpt35
    } else if "test-gpt-5"@.is_prefix_of(s) {
        ModelFamily::TestGpt5
    } else if "exp-rune"@.is_prefix_of(s) || "rune-1p"@.is_prefix_of(s) {
        ModelFamily::ExpRune
    } else if "exp-"@.is_prefix_of(s) {
        ModelFamily::Exp
    } else if "gpt-5.2-rune"@.is_prefix_of(s) || "bengalfox"@.is_prefix_of(s) {
        ModelFamily::Gpt52Rune
    } else if "gpt-5.1-rune-max"@.is_prefix_of(s) {
        ModelFamily::Gpt51RuneMax
    } else if ("gpt-5-rune"@.is_prefix_of(s) || "gpt-5.1-rune"@.is_prefix_of(s)
        || "rune-"@.is_prefix_of(s)) && !seq_contains_sub(s, "-mini"@) {
        ModelFamily::Gpt5Rune
    } else if "gpt-5-rune"@.is_prefix_of(s) || "gpt-5.1-rune"@.is_prefix_of(s)
        || "rune-"@.is_prefix_of(s) {
        ModelFamily::Gpt5RuneMini
    } else if "gpt-5.2"@.is_prefix_of(s) || "boomslang"@.is_prefix_of(s) {
        ModelFamily::Gpt52
    } else if "gpt-5.1"@.is_prefix_of(s) {
        ModelFamily::Gpt51
    } else if "gpt-5"@.is_prefix_of(s) {
        ModelFamily::Gpt5
    } else {
        ModelFamily::Unknown
    }
}

pub open spec fn expected_instructions(f: ModelFamily) -> InstructionsKind {
    match f {
        ModelFamily::O3O4Mini => InstructionsKind::BaseWithApplyPatch,
        ModelFamily::RuneMiniLatest => InstructionsKind::BaseWithApplyPatch,
        ModelFamily::Gpt41 => InstructionsKind::BaseWithApplyPatch,
        ModelFamily::GptOss => InstructionsKind::Base,
        ModelFamily::Gpt4o => InstructionsKind::BaseWithApplyPatch,
        ModelFamily::Gpt35 => InstructionsKind::BaseWithApplyPatch,
        ModelFamily::TestGpt5 => InstructionsKind::Gpt5Rune,
        ModelFamily::ExpRune => InstructionsKind::Gpt52Rune,
        ModelFamily::Exp => InstructionsKind::Base,
        ModelFamily::Gpt52Rune => InstructionsKind::Gpt52Rune,
        ModelFamily::Gpt51RuneMax => InstructionsKind::Gpt51RuneMax,
        ModelFamily::Gpt5Rune => InstructionsKind::Gpt5Rune,
        ModelFamily::Gpt5RuneMini => InstructionsKind::Gpt5Rune,
        ModelFamily::Gpt52 => InstructionsKind::Gpt52,
        ModelFamily::Gpt51 => InstructionsKind::Gpt51,
        ModelFamily::Gpt5 => InstructionsKind::BaseWithApplyPatch,
        ModelFamily::Unknown => InstructionsKind::Base,
    }
}

pub open spec fn expected_shell(f: ModelFamily) -> ConfigShellToolType {
    match f {
        ModelFamily::RuneMiniLatest => ConfigShellToolType::Local,
        ModelFamily::TestGpt5 => ConfigShellToolType::ShellCommand,
        ModelFamily::ExpRune => ConfigShellToolType::ShellCommand,
        ModelFamily::Exp => ConfigShellToolType::UnifiedExec,
        ModelFamily::Gpt52Rune => ConfigShellToolType::ShellCommand,
        ModelFamily::Gpt51RuneMax => ConfigShellToolType::ShellCommand,
        ModelFamily::Gpt5Rune => ConfigShellToolType::ShellCommand,
        ModelFamily::Gpt5RuneMini => ConfigShellToolType::ShellCommand,
        ModelFamily::Gpt52 => ConfigShellToolType::ShellCommand,
        ModelFamily::Gpt51 => ConfigShellToolType::ShellCommand,
        _ => ConfigShellToolType::DefaultShell,
    }
}

pub open spec fn expected_reasoning_summaries(f: ModelFamily) -> bool {
    match f {
        ModelFamily::Gpt41 => false,
        ModelFamily::GptOss => false,
        ModelFamily::Gpt4o => false,
        ModelFamily::Gpt35 => false,
        ModelFamily::Unknown => false,
        _ => true,
    }
}

pub open spec fn expected_context_window(f: ModelFamily) -> Option<i64> {
    match f {
        ModelFamily::O3O4Mini => Some(200000),
        ModelFamily::RuneMiniLatest => Some(200000),
        ModelFamily::Gpt41 => Some(1047576),
        ModelFamily::GptOss => Some(96000),
        ModelFamily::Gpt4o => Some(128000),
        ModelFamily::Gpt35 => Some(16385),
        ModelFamily::Unknown => None,
        _ => Some(272000),
    }
}

pub open spec fn expected_apply_patch(f: ModelFamily) -> Option<ApplyPatchToolType> {
    match f {
        ModelFamily::GptOss => Some(ApplyPatchToolType::Function),
        ModelFamily::ExpRune => Some(ApplyPatchToolType::Freeform),
        ModelFamily::Exp => Some(ApplyPatchToolType::Freeform),
        ModelFamily::Gpt52Rune => Some(ApplyPatchToolType::Freeform),
        ModelFamily::Gpt51RuneMax => Some(ApplyPatchToolType::Freeform),
        ModelFamily::Gpt5Rune => Some(ApplyPatchToolType::Freeform),
        ModelFamily::Gpt5RuneMini => Some(ApplyPatchToolType::Freeform),
        ModelFamily::Gpt52 => Some(ApplyPatchToolType::Freeform),
        ModelFamily::Gpt51 => Some(ApplyPatchToolType::Freeform),
        _ => None,
    }
}

pub open spec fn expected_parallel(f: ModelFamily) -> bool {
    match f {
        ModelFamily::TestGpt5 => true,
        ModelFamily::ExpRune => true,
        ModelFamily::Exp => true,
        ModelFamily::Gpt52Rune => true,
        ModelFamily::Gpt52 => true,
        ModelFamily::Gpt51 => true,
        _ => false,
    }
}

pub open spec fn expected_support_verbosity(f: ModelFamily) -> bool {
    match f {
        ModelFamily::TestGpt5 => true,
        ModelFamily::Exp => true,
        ModelFamily::Gpt52 => true,
        ModelFamily::Gpt51 => true,
        ModelFamily::Gpt5 => true,
        _ => false,
    }
}

pub open spec fn expected_default_verbosity(f: ModelFamily) -> Option<Verbosity> {
    match f {
        ModelFamily::Exp => Some(Verbosity::Low),
        ModelFamily::Gpt52 => Some(Verbosity::Low),
        ModelFamily::Gpt51 => Some(Verbosity::Low),
        _ => None,
    }
}

pub open spec fn expected_default_reasoning(f: ModelFamily) -> Option<ReasoningEffort> {
    match f {
        ModelFamily::Exp => Some(ReasoningEffort::Medium),
        ModelFamily::Gpt52 => Some(ReasoningEffort::Medium),
        ModelFamily::Gpt51 => Some(ReasoningEffort::Medium),
        _ => None,
    }
}

pub open spec fn expected_truncation(f: ModelFamily) -> TruncationPolicyConfig {
    match f {
        ModelFamily::TestGpt5 => TruncationPolicyConfig {
            mode: TruncationMode::Tokens,
            limit: 10000,
        },
        ModelFamily::ExpRune => TruncationPolicyConfig {
            mode: TruncationMode::Tokens,
            limit: 10000,
        },
        ModelFamily::Gpt52Rune => TruncationPolicyConfig {
            mode: TruncationMode::Tokens,
            limit: 10000,
        },
        ModelFamily::Gpt51RuneMax => TruncationPolicyConfig {
            mode: TruncationMode::Tokens,
            limit: 10000,
        },
        ModelFamily::Gpt5Rune => TruncationPolicyConfig {
            mode: TruncationMode::Tokens,
            limit: 10000,
        },
        ModelFamily::Gpt5RuneMini => TruncationPolicyConfig {
            mode: TruncationMode::Tokens,
            limit: 10000,
        },
        _ => TruncationPolicyConfig { mode: TruncationMode::Bytes, limit: 10000 },
    }
}

pub open spec fn expected_model_messages(f: ModelFamily) -> Option<ModelMessages> {
    match f {
        ModelFamily::ExpRune => Some(ModelMessages { template: InstructionsKind::Gpt52Rune }),
        ModelFamily::Gpt52Rune => Some(ModelMessages { template: InstructionsKind::Gpt52Rune }),
        _ => None,
    }
}

pub open spec fn preset_is(p: ReasoningEffortPreset, e: ReasoningEffort, d: Seq<char>) -> bool {
    p.effort == e && p.description@ == d
}

pub open spec fn levels_low_medium_high(v: Seq<ReasoningEffortPreset>) -> bool {
    v.len() == 3 && preset_is(v[0], ReasoningEffort::Low, "Fast responses with lighter reasoning"@)
        && preset_is(
        v[1],
        ReasoningEffort::Medium,
        "Balances speed and reasoning depth for everyday tasks"@,
    ) && preset_is(v[2], ReasoningEffort::High, "Greater reasoning depth for complex problems"@)
}

pub open spec fn levels_low_medium_high_non_rune(v: Seq<ReasoningEffortPreset>) -> bool {
    v.len() == 3 && preset_is(
        v[0],
        ReasoningEffort::Low,
        "Balances speed with some reasoning; useful for straightforward queries and short explanations"@,
    ) && preset_is(
        v[1],
        ReasoningEffort::Medium,
        "Provides a solid balance of reasoning depth and latency for general-purpose tasks"@,
    ) && preset_is(
        v[2],
        ReasoningEffort::High,
        "Maximizes reasoning depth for complex or ambiguous problems"@,
    )
}

pub open spec fn levels_low_medium_high_xhigh(v: Seq<ReasoningEffortPreset>) -> bool {
    v.len() == 4 && levels_low_medium_high(v.subrange(0, 3)) && preset_is(
        v[3],
        ReasoningEffort::XHigh,
        "Extra high reasoning depth for complex problems"@,
    )
}

pub open spec fn levels_low_medium_high_xhigh_non_rune(v: Seq<ReasoningEffortPreset>) -> bool {
    v.len() == 4 && levels_low_medium_high_non_rune(v.subrange(0, 3)) && preset_is(
        v[3],
        ReasoningEffort::XHigh,
        "Extra high reasoning for complex problems"@,
    )
}

pub open spec fn expected_levels(v: Seq<ReasoningEffortPreset>, f: ModelFamily) -> bool {
    match f {
        ModelFamily::Gpt52Rune => levels_low_medium_high_xhigh(v),
        ModelFamily::Gpt51RuneMax => levels_low_medium_high_xhigh(v),
        ModelFamily::Gpt52 => levels_low_medium_high_xhigh_non_rune(v),
        ModelFamily::Gpt51 => levels_low_medium_high_non_rune(v),
        ModelFamily::Unknown => v.len() == 0,
        _ => levels_low_medium_high(v),
    }
}

pub open spec fn expected_tools(v: Seq<String>, f: ModelFamily) -> bool {
    match f {
        ModelFamily::TestGpt5 => v.len() == 4 && v[0]@ == "grep_files"@ && v[1]@ == "list_dir"@
            && v[2]@ == "read_file"@ && v[3]@ == "test_sync_tool"@,
        _ => v.len() == 0,
    }
}

fn preset(effort: ReasoningEffort, description: &str) -> (r: ReasoningEffortPreset)
    ensures
        preset_is(r, effort, description@),
{
    ReasoningEffortPreset { effort, description: description.to_owned() }
}

fn supported_reasoning_level_low_medium_high() -> (r: Vec<ReasoningEffortPreset>)
    ensures
        levels_low_medium_high(r@),
{
    let mut v: Vec<ReasoningEffortPreset> = Vec::new();
    v.push(preset(ReasoningEffort::Low, "Fast responses with lighter reasoning"));
    v.push(preset(ReasoningEffort::Medium, "Balances speed and reasoning depth for everyday tasks"));
    v.push(preset(ReasoningEffort::High, "Greater reasoning depth for complex problems"));
    v
}

fn supported_reasoning_level_low_medium_high_non_rune() -> (r: Vec<ReasoningEffortPreset>)
    ensures
        levels_low_medium_high_non_rune(r@),
{
    let mut v: Vec<ReasoningEffortPreset> = Vec::new();
    v.push(
        preset(
            ReasoningEffort::Low,
            "Balances speed with some reasoning; useful for straightforward queries and short explanations",
        ),
    );
    v.push(
        preset(
            ReasoningEffort::Medium,
            "Provides a solid balance of reasoning depth and latency for general-purpose tasks",
        ),
    );
    v.push(
        preset(ReasoningEffort::High, "Maximizes reasoning depth for complex or ambiguous problems"),
    );
    v
}

fn supported_reasoning_level_low_medium_high_xhigh() -> (r: Vec<ReasoningEffortPreset>)
    ensures
        levels_low_medium_high_xhigh(r@),
{
    let mut v = supported_reasoning_level_low_medium_high();
    v.push(preset(ReasoningEffort::XHigh, "Extra high reasoning depth for complex problems"));
    proof {
        assert(v@.subrange(0, 3) =~= v@.drop_last());
    }
    v
}

fn supported_reasoning_level_low_medium_high_xhigh_non_rune() -> (r: Vec<ReasoningEffortPreset>)
    ensures
        levels_low_medium_high_xhigh_non_rune(r@),
{
    let mut v = supported_reasoning_level_low_medium_high_non_rune();
    v.push(preset(ReasoningEffort::XHigh, "Extra high reasoning for complex problems"));
    proof {
        assert(v@.subrange(0, 3) =~= v@.drop_last());
    }
    v
}

/// The family-independent defaults every table entry starts from.
fn default_model_info(slug: &str) -> (m: ModelInfo)
    ensures
        m.slug@ == slug@,
        m.display_name@ == slug@,
        m.description is None,
        m.default_reasoning_level is None,
        levels_low_medium_high(m.supported_reasoning_levels@),
        m.shell_type == ConfigShellToolType::DefaultShell,
        m.visibility == ModelVisibility::Hidden,
        m.supported_in_api,
        m.priority == 99,
        m.upgrade is None,
        m.base_instructions == BaseInstructions::Preset(InstructionsKind::Base),
        m.model_messages is None,
        !m.supports_reasoning_summaries,
        !m.support_verbosity,
        m.default_verbosity is None,
        m.apply_patch_tool_type is None,
        m.truncation_policy == (TruncationPolicyConfig {
            mode: TruncationMode::Bytes,
            limit: 10000,
        }),
        !m.supports_parallel_tool_calls,
        m.context_window == Some(272000i64),
        m.auto_compact_token_limit is None,
        m.effective_context_window_percent == 95,
        m.experimental_supported_tools@.len() == 0,
        m.input_modalities@ =~= seq![InputModality::Text],
{
    let mut modalities: Vec<InputModality> = Vec::new();
    modalities.push(InputModality::Text);
    ModelInfo {
        slug: slug.to_owned(),
        display_name: slug.to_owned(),
        description: None,
        default_reasoning_level: None,
        supported_reasoning_levels: supported_reasoning_level_low_medium_high(),
        shell_type: ConfigShellToolType::DefaultShell,
        visibility: ModelVisibility::Hidden,
        supported_in_api: true,
        priority: 99,
        upgrade: None,
        base_instructions: BaseInstructions::Preset(InstructionsKind::Base),
        model_messages: None,
        supports_reasoning_summaries: false,
        support_verbosity: false,
        default_verbosity: None,
        apply_patch_tool_type: None,
        truncation_policy: TruncationPolicyConfig::bytes(10000),
        supports_parallel_tool_calls: false,
        context_window: Some(CONTEXT_WINDOW_272K),
        auto_compact_token_limit: None,
        effective_context_window_percent: 95,
        experimental_supported_tools: Vec::new(),
        input_modalities: modalities,
    }
}

/// The offline defaults table: what the runtime knows about `slug` with no
/// remote metadata, field by field.
pub fn find_model_info_for_slug(slug: &str) -> (r: ModelInfo)
    ensures
        r.slug@ == slug@,
        r.display_name@ == slug@,
        r.description is None,
        r.default_reasoning_level == expected_default_reasoning(slug_family(slug@)),
        expected_levels(r.supported_reasoning_levels@, slug_family(slug@)),
        r.shell_type == expected_shell(slug_family(slug@)),
        r.visibility == ModelVisibility::Hidden,
        r.supported_in_api,
        r.priority == 99,
        r.upgrade is None,
        r.base_instructions == BaseInstructions::Preset(expected_instructions(slug_family(slug@))),
        r.model_messages == expected_model_messages(slug_family(slug@)),
        r.supports_reasoning_summaries == expected_reasoning_summaries(slug_family(slug@)),
        r.support_verbosity == expected_support_verbosity(slug_family(slug@)),
        r.default_verbosity == expected_default_verbosity(slug_family(slug@)),
        r.apply_patch_tool_type == expected_apply_patch(slug_family(slug@)),
        r.truncation_policy == expected_truncation(slug_family(slug@)),
        r.supports_parallel_tool_calls == expected_parallel(slug_family(slug@)),
        r.context_window == expected_context_window(slug_family(slug@)),
        r.auto_compact_token_limit is None,
        r.effective_context_window_percent == 95,
        expected_tools(r.experimental_supported_tools@, slug_family(slug@)),
        r.input_modalities@ =~= seq![InputModality::Text],
{
    let mut m = default_model_info(slug);
    if str_starts_with(slug, "o3") || str_starts_with(slug, "o4-mini") {
        m.base_instructions = BaseInstructions::Preset(InstructionsKind::BaseWithApplyPatch);
        m.supports_reasoning_summaries = true;
        m.context_window = Some(200000);
    } else if str_starts_with(slug, "rune-mini-latest") {
        m.base_instructions = BaseInstructions::Preset(InstructionsKind::BaseWithApplyPatch);
        m.shell_type = ConfigShellToolType::Local;
        m.supports_reasoning_summaries = true;
        m.context_window = Some(200000);
    } else if str_starts_with(slug, "gpt-4.1") {
        m.base_instructions = BaseInstructions::Preset(InstructionsKind::BaseWithApplyPatch);
        m.context_window = Some(1047576);
    } else if str_starts_with(slug, "gpt-oss") || str_starts_with(slug, "openai/gpt-oss") {
        m.apply_patch_tool_type = Some(ApplyPatchToolType::Function);
        m.context_window = Some(96000);
    } else if str_starts_with(slug, "gpt-4o") {
        m.base_instructions = BaseInstructions::Preset(InstructionsKind::BaseWithApplyPatch);
        m.context_window = Some(128000);
    } else if str_starts_with(slug, "gpt-3.5") {
        m.base_instructions = BaseInstructions::Preset(InstructionsKind::BaseWithApplyPatch);
        m.context_window = Some(16385);
    } else if str_starts_with(slug, "test-gpt-5") {
        m.base_instructions = BaseInstructions::Preset(InstructionsKind::Gpt5Rune);
        let mut tools: Vec<String> = Vec::new();
        tools.push("grep_files".to_owned());
        tools.push("list_dir".to_owned());
        tools.push("read_file".to_owned());
        tools.push("test_sync_tool".to_owned());
        m.experimental_supported_tools = tools;
        m.supports_parallel_tool_calls = true;
        m.supports_reasoning_summaries = true;
        m.shell_type = ConfigShellToolType::ShellCommand;
        m.support_verbosity = true;
        m.truncation_policy = TruncationPolicyConfig::tokens(10000);
    } else if str_starts_with(slug, "exp-rune") || str_starts_with(slug, "rune-1p") {
        m.base_instructions = BaseInstructions::Preset(InstructionsKind::Gpt52Rune);
        m.model_messages = Some(ModelMessages { template: InstructionsKind::Gpt52Rune });
        m.apply_patch_tool_type = Some(ApplyPatchToolType::Freeform);
        m.shell_type = ConfigShellToolType::ShellCommand;
        m.supports_parallel_tool_calls = true;
        m.supports_reasoning_summaries = true;
        m.truncation_policy = TruncationPolicyConfig::tokens(10000);
    } else if str_starts_with(slug, "exp-") {
        m.apply_patch_tool_type = Some(ApplyPatchToolType::Freeform);
        m.supports_reasoning_summaries = true;
        m.support_verbosity = true;
        m.default_verbosity = Some(Verbosity::Low);
        m.default_reasoning_level = Some(ReasoningEffort::Medium);
        m.shell_type = ConfigShellToolType::UnifiedExec;
        m.supports_parallel_tool_calls = true;
    } else if str_starts_with(slug, "gpt-5.2-rune") || str_starts_with(slug, "bengalfox") {
        m.base_instructions = BaseInstructions::Preset(InstructionsKind::Gpt52Rune);
        m.apply_patch_tool_type = Some(ApplyPatchToolType::Freeform);
        m.shell_type = ConfigShellToolType::ShellCommand;
        m.supports_parallel_tool_calls = true;
        m.supports_reasoning_summaries = true;
        m.truncation_policy = TruncationPolicyConfig::tokens(10000);
        m.supported_reasoning_levels = supported_reasoning_level_low_medium_high_xhigh();
        m.model_messages = Some(ModelMessages { template: InstructionsKind::Gpt52Rune });
    } else if str_starts_with(slug, "gpt-5.1-rune-max") {
        m.base_instructions = BaseInstructions::Preset(InstructionsKind::Gpt51RuneMax);
        m.apply_patch_tool_type = Some(ApplyPatchToolType::Freeform);
        m.shell_type = ConfigShellToolType::ShellCommand;
        m.supports_reasoning_summaries = true;
        m.truncation_policy = TruncationPolicyConfig::tokens(10000);
        m.supported_reasoning_levels = supported_reasoning_level_low_medium_high_xhigh();
    } else if (str_starts_with(slug, "gpt-5-rune") || str_starts_with(slug, "gpt-5.1-rune")
        || str_starts_with(slug, "rune-")) && !str_contains(slug, "-mini") {
        m.base_instructions = BaseInstructions::Preset(InstructionsKind::Gpt5Rune);
        m.apply_patch_tool_type = Some(ApplyPatchToolType::Freeform);
        m.shell_type = ConfigShellToolType::ShellCommand;
        m.supports_reasoning_summaries = true;
        m.truncation_policy = TruncationPolicyConfig::tokens(10000);
    } else if str_starts_with(slug, "gpt-5-rune") || str_starts_with(slug, "gpt-5.1-rune")
        || str_starts_with(slug, "rune-") {
        m.base_instructions = BaseInstructions::Preset(InstructionsKind::Gpt5Rune);
        m.apply_patch_tool_type = Some(ApplyPatchToolType::Freeform);
        m.shell_type = ConfigShellToolType::ShellCommand;
        m.supports_reasoning_summaries = true;
        m.truncation_policy = TruncationPolicyConfig::tokens(10000);
    } else if str_starts_with(slug, "gpt-5.2") || str_starts_with(slug, "boomslang") {
        m.apply_patch_tool_type = Some(ApplyPatchToolType::Freeform);
        m.supports_reasoning_summaries = true;
        m.support_verbosity = true;
        m.default_verbosity = Some(Verbosity::Low);
        m.base_instructions = BaseInstructions::Preset(InstructionsKind::Gpt52);
        m.default_reasoning_level = Some(ReasoningEffort::Medium);
        m.shell_type = ConfigShellToolType::ShellCommand;
        m.supports_parallel_tool_calls = true;
        m.supported_reasoning_levels = supported_reasoning_level_low_medium_high_xhigh_non_rune();
    } else if str_starts_with(slug, "gpt-5.1") {
        m.apply_patch_tool_type = Some(ApplyPatchToolType::Freeform);
        m.supports_reasoning_summaries = true;
        m.support_verbosity = true;
        m.default_verbosity = Some(Verbosity::Low);
        m.base_instructions = BaseInstructions::Preset(InstructionsKind::Gpt51);
        m.default_reasoning_level = Some(ReasoningEffort::Medium);
        m.shell_type = ConfigShellToolType::ShellCommand;
        m.supports_parallel_tool_calls = true;
        m.supported_reasoning_levels = supported_reasoning_level_low_medium_high_non_rune();
    } else if str_starts_with(slug, "gpt-5") {
        m.base_instructions = BaseInstructions::Preset(InstructionsKind::BaseWithApplyPatch);
        m.supports_reasoning_summaries = true;
        m.support_verbosity = true;
    } else {
        m.context_window = None;
        m.supported_reasoning_levels = Vec::new();
        m.default_reasoning_level = None;
    }
    m
}

/// Four bytes of captured output per token: the rough exchange rate used when
/// a token limit has to be applied to a byte-truncated policy.
pub fn approx_bytes_for_tokens(tokens: u64) -> (r: u64)
    ensures
        r == if tokens * 4 <= u64::MAX { tokens * 4 } else { u64::MAX as int },
{
    if tokens > u64::MAX / 4 {
        proof {
            assert(tokens * 4 > u64::MAX) by (nonlinear_arith)
                requires
                    tokens > u64::MAX / 4,
            ;
        }
        u64::MAX
    } else {
        proof {
            assert(tokens * 4 <= u64::MAX) by (nonlinear_arith)
                requires
                    tokens <= u64::MAX / 4,
            ;
        }
        tokens * 4
    }
}

/// `v` clamped into an `i64`, the way `i64::try_from(v).unwrap_or(i64::MAX)`
/// behaves for a non-negative source.
fn saturate_to_i64(v: u64) -> (r: i64)
    ensures
        r == if v <= i64::MAX { v as int } else { i64::MAX as int },
{
    if v > i64::MAX as u64 {
        i64::MAX
    } else {
        v as i64
    }
}

/// The truncation policy after a `tool_output_token_limit` override: a
/// byte-mode policy gets the limit converted to bytes, a token-mode policy
/// takes it as is, both clamped to an `i64`.
pub open spec fn truncation_after_override(
    mode: TruncationMode,
    token_limit: u64,
) -> TruncationPolicyConfig {
    match mode {
        TruncationMode::Bytes => TruncationPolicyConfig {
            mode: TruncationMode::Bytes,
            limit: if token_limit * 4 <= i64::MAX {
                (token_limit * 4) as i64
            } else {
                i64::MAX
            },
        },
        TruncationMode::Tokens => TruncationPolicyConfig {
            mode: TruncationMode::Tokens,
            limit: if token_limit <= i64::MAX {
                token_limit as i64
            } else {
                i64::MAX
            },
        },
    }
}

/// Apply the user's configuration on top of a table entry: explicit settings
/// win; personality messages survive only when the feature is on and no
/// custom instructions were given.
pub fn with_config_overrides(model: ModelInfo, config: &Config) -> (r: ModelInfo)
    ensures
        r.supports_reasoning_summaries == (match config.model_supports_reasoning_summaries {
            Some(b) => b,
            None => model.supports_reasoning_summaries,
        }),
        r.context_window == (match config.model_context_window {
            Some(w) => Some(w),
            None => model.context_window,
        }),
        r.auto_compact_token_limit == (match config.model_auto_compact_token_limit {
            Some(l) => Some(l),
            None => model.auto_compact_token_limit,
        }),
        r.truncation_policy == (match config.tool_output_token_limit {
            Some(t) => truncation_after_override(model.truncation_policy.mode, t),
            None => model.truncation_policy,
        }),
        r.base_instructions == (match config.base_instructions {
            Some(s) => BaseInstructions::Custom(s),
            None => model.base_instructions,
        }),
        r.model_messages == (if config.base_instructions is Some || !config.features.enabled_spec(
            Feature::Personality,
        ) {
            None::<ModelMessages>
        } else {
            model.model_messages
        }),
        r.slug == model.slug,
        r.display_name == model.display_name,
        r.description == model.description,
        r.default_reasoning_level == model.default_reasoning_level,
        r.supported_reasoning_levels == model.supported_reasoning_levels,
        r.shell_type == model.shell_type,
        r.visibility == model.visibility,
        r.supported_in_api == model.supported_in_api,
        r.priority == model.priority,
        r.upgrade == model.upgrade,
        r.support_verbosity == model.support_verbosity,
        r.default_verbosity == model.default_verbosity,
        r.apply_patch_tool_type == model.apply_patch_tool_type,
        r.supports_parallel_tool_calls == model.supports_parallel_tool_calls,
        r.effective_context_window_percent == model.effective_context_window_percent,
        r.experimental_supported_tools == model.experimental_supported_tools,
        r.input_modalities == model.input_modalities,
{
    let mut model = model;
    if let Some(supports_reasoning_summaries) = config.model_supports_reasoning_summaries {
        model.supports_reasoning_summaries = supports_reasoning_summaries;
    }
    if let Some(context_window) = config.model_context_window {
        model.context_window = Some(context_window);
    }
    if let Some(auto_compact_token_limit) = config.model_auto_compact_token_limit {
        model.auto_compact_token_limit = Some(auto_compact_token_limit);
    }
    if let Some(token_limit) = config.tool_output_token_limit {
        model.truncation_policy = match model.truncation_policy.mode {
            TruncationMode::Bytes => {
                let byte_limit = saturate_to_i64(approx_bytes_for_tokens(token_limit));
                TruncationPolicyConfig::bytes(byte_limit)
            },
            TruncationMode::Tokens => {
                let limit = saturate_to_i64(token_limit);
                TruncationPolicyConfig::tokens(limit)
            },
        };
    }
    if let Some(base_instructions) = &config.base_instructions {
        model.base_instructions = BaseInstructions::Custom(base_instructions.clone());
        model.model_messages = None;
    } else if !config.features.enabled(Feature::Personality) {
        model.model_messages = None;
    }
    model
}

} // verus!
