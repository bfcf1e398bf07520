//! The slice of the effective configuration that the runtime consumes, and
//! the feature flags gating optional behaviour.
use vstd::prelude::*;

verus! {

/// How far along a feature is. Only `Experimental` and `Stable` features
/// appear in the user-facing list; enabling an `UnderDevelopment` feature is
/// permitted but warned about.
#[derive(Clone, Copy, Debug, PartialEq, Eq, Structural)]
pub enum FeatureStage {
    UnderDevelopment,
    Experimental,
    Stable,
    Deprecated,
    Removed,
}

/// A feature flag known to the runtime.
#[derive(Clone, Copy, Debug, PartialEq, Eq, Structural)]
pub enum Feature {
    UnifiedExec,
    ShellTool,
    Sqlite,
    Personality,
    EnableRequestCompression,
}

impl Feature {
    /// The stage each feature is currently in.
    pub open spec fn stage_spec(self) -> FeatureStage {
        match self {
            Feature::UnifiedExec => FeatureStage::Stable,
            Feature::ShellTool => FeatureStage::Stable,
            Feature::Sqlite => FeatureStage::UnderDevelopment,
            Feature::Personality => FeatureStage::Experimental,
            Feature::EnableRequestCompression => FeatureStage::Experimental,
        }
    }

    pub fn stage(self) -> (r: FeatureStage)
        ensures
            r == self.stage_spec(),
    {
        match self {
            Feature::UnifiedExec => FeatureStage::Stable,
            Feature::ShellTool => FeatureStage::Stable,
            Feature::Sqlite => FeatureStage::UnderDevelopment,
            Feature::Personality => FeatureStage::Experimental,
            Feature::EnableRequestCompression => FeatureStage::Experimental,
        }
    }

    /// Only experimental and stable features are shown to users.
    pub fn listed_for_users(self) -> (r: bool)
        ensures
            r == (self.stage_spec() == FeatureStage::Experimental || self.stage_spec()
                == FeatureStage::Stable),
    {
        match self.stage() {
            FeatureStage::Experimental => true,
            FeatureStage::Stable => true,
            _ => false,
        }
    }

    /// Enabling an under-development feature is allowed but earns a warning.
    pub fn warns_when_enabled(self) -> (r: bool)
        ensures
            r == (self.stage_spec() == FeatureStage::UnderDevelopment),
    {
        match self.stage() {
            FeatureStage::UnderDevelopment => true,
            _ => false,
        }
    }
}

/// The set of enabled feature flags.
#[derive(Clone, Copy, Debug, PartialEq, Eq, Structural)]
pub struct Features {
    pub unified_exec: bool,
    pub shell_tool: bool,
    pub sqlite: bool,
    pub personality: bool,
    pub enable_request_compression: bool,
}

impl Features {
    pub open spec fn enabled_spec(self, f: Feature) -> bool {
        match f {
            Feature::UnifiedExec => self.unified_exec,
            Feature::ShellTool => self.shell_tool,
            Feature::Sqlite => self.sqlite,
            Feature::Personality => self.personality,
            Feature::EnableRequestCompression => self.enable_request_compression,
        }
    }

    pub fn enabled(&self, f: Feature) -> (r: bool)
        ensures
            r == self.enabled_spec(f),
    {
        match f {
            Feature::UnifiedExec => self.unified_exec,
            Feature::ShellTool => self.shell_tool,
            Feature::Sqlite => self.sqlite,
            Feature::Personality => self.personality,
            Feature::EnableRequestCompression => self.enable_request_compression,
        }
    }

    pub fn none() -> (r: Features)
        ensures
            forall|f: Feature| !r.enabled_spec(f),
    {
        Features {
            unified_exec: false,
            shell_tool: false,
            sqlite: false,
            personality: false,
            enable_request_compression: false,
        }
    }
}

/// The parts of the loaded configuration that the thread runtime reads.
#[derive(Clone, Debug)]
pub struct Config {
    pub model: Option<String>,
    pub model_provider: String,
    pub model_supports_reasoning_summaries: Option<bool>,
    pub model_context_window: Option<i64>,
    pub model_auto_compact_token_limit: Option<i64>,
    pub tool_output_token_limit: Option<u64>,
    pub base_instructions: Option<String>,
    pub features: Features,
    pub rune_home: String,
    pub ephemeral: bool,
    /// Sub-tool servers declared in the configuration: name and whether the
    /// server is required for startup.
    pub mcp_servers: Vec<McpServerConfig>,
}

/// The managed-config override taken from a debug-only environment value:
/// an empty value means none.
pub fn managed_config_path_from_value(value: Option<String>) -> (r: Option<String>)
    ensures
        (match value {
            Some(v) => if v@.len() == 0 {
                r is None
            } else {
                r == Some(v)
            },
            None => r is None,
        }),
{
    match value {
        Some(v) => if v.as_str().is_empty() {
            None
        } else {
            Some(v)
        },
        None => None,
    }
}

/// One declared sub-tool server.
#[derive(Clone, Debug)]
pub struct McpServerConfig {
    pub name: String,
    pub command: String,
    pub required: bool,
}

} // verus!
