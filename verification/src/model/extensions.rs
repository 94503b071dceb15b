//! Extensions (plugins, MCP servers, skills) and the marketplace.
use vstd::prelude::*;
use std::collections::HashMap;

verus! {

#[derive(Debug, Clone, PartialEq, Eq)]
pub enum ExtensionKind {
    Plugin,
    Mcp,
    Skill,
}

#[derive(Debug, Clone, PartialEq, Eq)]
pub enum ExtensionInstallState {
    Discovered,
    Installed,
    Enabled,
    Disabled,
    Error,
}

#[derive(Debug, Clone, PartialEq, Eq)]
pub enum ExtensionHealth {
    Unknown,
    Healthy,
    Degraded,
    Error,
}

#[derive(Debug, Clone)]
pub enum ExtensionSourceDto {
    Builtin,
    LocalDir { path: String },
    Marketplace { listing_id: String },
}

#[derive(Debug, Clone)]
pub struct ExtensionSummaryDto {
    pub id: String,
    pub kind: ExtensionKind,
    pub name: String,
    pub version: String,
    pub description: Option<String>,
    pub source: ExtensionSourceDto,
    pub install_state: ExtensionInstallState,
    pub health: ExtensionHealth,
    pub permissions: Vec<String>,
    pub tags: Vec<String>,
}

#[derive(Debug, Clone)]
pub struct PluginToolDto {
    pub name: String,
    pub description: String,
    pub command: String,
    pub args: Vec<String>,
    pub cwd: Option<String>,
    pub timeout_ms: Option<u64>,
    pub required_permission: String,
}

#[derive(Debug, Clone)]
pub struct PluginCommandDto {
    pub name: String,
    pub description: String,
    pub prompt_template: Option<String>,
}

#[derive(Debug, Clone)]
pub struct PluginHookGroupDto {
    pub event: String,
    pub handlers: Vec<String>,
}

#[derive(Debug, Clone)]
pub struct PluginDetailDto {
    pub id: String,
    pub path: String,
    pub author: Option<String>,
    pub homepage: Option<String>,
    pub default_enabled: bool,
    pub enabled: bool,
    pub capabilities: Vec<String>,
    pub permissions: Vec<String>,
    pub hooks: Vec<PluginHookGroupDto>,
    pub tools: Vec<PluginToolDto>,
    pub commands: Vec<PluginCommandDto>,
    pub bundled_skills: Vec<String>,
    pub bundled_mcp_servers: Vec<String>,
    pub timeout_ms: Option<u64>,
    pub skills_dir: Option<String>,
    pub config_schema_path: Option<String>,
    pub last_error: Option<String>,
}

#[derive(Debug, Clone)]
pub struct McpServerConfigInput {
    pub id: String,
    pub label: String,
    pub transport: String,
    pub enabled: bool,
    pub auto_start: bool,
    pub command: Option<String>,
    pub args: Option<Vec<String>>,
    pub env: Option<HashMap<String, String>>,
    pub cwd: Option<String>,
    pub url: Option<String>,
    pub headers: Option<HashMap<String, String>>,
    pub timeout_ms: Option<u64>,
}

#[derive(Debug, Clone)]
pub struct McpServerConfigDto {
    pub id: String,
    pub label: String,
    pub transport: String,
    pub enabled: bool,
    pub auto_start: bool,
    pub command: Option<String>,
    pub args: Vec<String>,
    pub env: HashMap<String, String>,
    pub cwd: Option<String>,
    pub url: Option<String>,
    pub headers: HashMap<String, String>,
    pub timeout_ms: Option<u64>,
}

#[derive(Debug, Clone)]
pub struct McpResourceSummaryDto {
    pub uri: String,
    pub name: String,
    pub description: Option<String>,
    pub mime_type: Option<String>,
}

#[derive(Debug, Clone)]
pub struct SkillRecordDto {
    pub id: String,
    pub name: String,
    pub description: Option<String>,
    pub tags: Vec<String>,
    pub triggers: Vec<String>,
    pub tools: Vec<String>,
    pub priority: Option<String>,
    pub source: String,
    pub path: String,
    pub enabled: bool,
    pub pinned: bool,
    pub scope: String,
    pub content_preview: String,
    pub prompt_budget_chars: usize,
}

#[derive(Debug, Clone)]
pub struct SkillPreviewDto {
    pub record: SkillRecordDto,
    pub content: String,
}

#[derive(Debug, Clone)]
pub struct ExtensionCommandDto {
    pub plugin_id: String,
    pub name: String,
    pub description: String,
    pub prompt_template: String,
}

#[derive(Debug, Clone)]
pub struct MarketplaceSourceDto {
    pub id: String,
    pub name: String,
    pub url: String,
    pub builtin: bool,
    pub kind: String,
    pub status: String,
    pub last_synced_at: Option<String>,
    pub last_error: Option<String>,
    pub plugin_count: usize,
}

#[derive(Debug, Clone)]
pub struct MarketplaceSourceInputDto {
    pub name: String,
    pub url: String,
}

#[derive(Debug, Clone)]
pub struct MarketplaceSourcePluginRefDto {
    pub id: String,
    pub name: String,
    pub version: String,
    pub enabled: bool,
    pub path: String,
}

#[derive(Debug, Clone)]
pub struct MarketplaceRemoveSourcePlanDto {
    pub source: MarketplaceSourceDto,
    pub can_remove: bool,
    pub blocking_plugins: Vec<MarketplaceSourcePluginRefDto>,
    pub removable_installed_plugins: Vec<MarketplaceSourcePluginRefDto>,
    pub summary: String,
}

#[derive(Debug, Clone)]
pub struct MarketplaceItemDto {
    pub id: String,
    pub source_id: String,
    pub source_name: String,
    pub kind: String,
    pub name: String,
    pub version: String,
    pub summary: String,
    pub description: String,
    pub publisher: String,
    pub tags: Vec<String>,
    pub hooks: Vec<PluginHookGroupDto>,
    pub command_names: Vec<String>,
    pub mcp_servers: Vec<String>,
    pub skill_names: Vec<String>,
    pub path: String,
    pub installable: bool,
    pub installed: bool,
    pub enabled: bool,
}

} // verus!
