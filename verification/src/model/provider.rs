//! Model providers, their models, and agent profiles.
use vstd::prelude::*;
use crate::json::Json;
use crate::text::str_eq;

verus! {

/// One entry of the provider catalog.
#[derive(Debug, Clone)]
pub struct ProviderCatalogEntryDto {
    pub provider_key: String,
    pub provider_type: String,
    pub display_name: String,
    pub builtin: bool,
    pub supports_custom: bool,
    pub default_base_url: String,
}

/// Whether a provider ships with the app or was added by the user.
#[derive(Debug, Clone, Copy, PartialEq, Eq, Structural)]
pub enum ProviderKind {
    Builtin,
    Custom,
}

impl ProviderKind {
    /// The stored name.
    pub open spec fn name(self) -> Seq<char> {
        match self {
            ProviderKind::Builtin => "builtin"@,
            ProviderKind::Custom => "custom"@,
        }
    }

    /// `builtin` names the built-in kind; every other value is custom.
    pub open spec fn from_name(s: Seq<char>) -> ProviderKind {
        if s == "builtin"@ {
            ProviderKind::Builtin
        } else {
            ProviderKind::Custom
        }
    }

    /// The stored name.
    pub fn as_str(&self) -> (r: &'static str)
        ensures
            r@ == self.name(),
    {
        match self {
            ProviderKind::Builtin => "builtin",
            ProviderKind::Custom => "custom",
        }
    }
}

impl From<String> for ProviderKind {
    fn from(value: String) -> (r: ProviderKind)
        ensures
            r == ProviderKind::from_name(value@),
    {
        if str_eq(value.as_str(), "builtin") {
            ProviderKind::Builtin
        } else {
            ProviderKind::Custom
        }
    }
}

impl vstd::std_specs::convert::FromSpecImpl<String> for ProviderKind {
    open spec fn obeys_from_spec() -> bool {
        true
    }

    open spec fn from_spec(v: String) -> ProviderKind {
        ProviderKind::from_name(v@)
    }
}

/// Reading back the stored name of a provider kind gives the same kind.
pub proof fn lemma_provider_kind_round_trip(k: ProviderKind)
    ensures
        ProviderKind::from_name(k.name()) == k,
{
    reveal_strlit("builtin");
    reveal_strlit("custom");
    assert("builtin"@.len() == 7 && "custom"@.len() == 6);
}

/// A stored provider row.
#[derive(Debug, Clone)]
pub struct ProviderRecord {
    pub id: String,
    pub provider_kind: ProviderKind,
    pub provider_key: String,
    pub provider_type: String,
    pub display_name: String,
    pub base_url: String,
    pub api_key_encrypted: Option<String>,
    pub enabled: bool,
    pub mapping_locked: bool,
    pub custom_headers_json: Option<String>,
    pub created_at: String,
    pub updated_at: String,
}

/// A stored model row of a provider.
#[derive(Debug, Clone)]
pub struct ProviderModelRecord {
    pub id: String,
    pub provider_id: String,
    pub model_name: String,
    pub sort_index: i64,
    pub display_name: Option<String>,
    pub enabled: bool,
    pub context_window: Option<String>,
    pub max_output_tokens: Option<String>,
    pub capabilities_json: Option<String>,
    pub provider_options_json: Option<String>,
    pub is_manual: bool,
    pub created_at: String,
}

/// The JSON of an optional stored text: nothing without a text, else what
/// serde_json reads from it (`parsed`, `None` when it does not parse).
pub open spec fn optional_json(text: Option<String>, parsed: Option<Json>) -> Option<Json> {
    match text {
        Some(_) => parsed,
        None => None,
    }
}

/// A model of a provider as shown in settings.
#[derive(Debug)]
pub struct ProviderModelSettingsDto {
    pub id: String,
    pub provider_id: String,
    pub model_id: String,
    pub sort_index: i64,
    pub display_name: Option<String>,
    pub enabled: bool,
    pub context_window: Option<String>,
    pub max_output_tokens: Option<String>,
    pub capability_overrides: Option<Json>,
    pub provider_options: Option<Json>,
    pub is_manual: bool,
}

impl ProviderModelSettingsDto {
    /// The settings view of a model row. `capabilities` and `options` are
    /// what serde_json reads from `capabilities_json` and
    /// `provider_options_json` (`None` when a text does not parse); each is
    /// kept only where the row holds that text.
    pub fn from_record(r: ProviderModelRecord, capabilities: Option<Json>, options: Option<Json>) -> (d: Self)
        ensures
            d.id == r.id && d.provider_id == r.provider_id && d.model_id == r.model_name,
            d.sort_index == r.sort_index && d.display_name == r.display_name && d.enabled == r.enabled,
            d.context_window == r.context_window && d.max_output_tokens == r.max_output_tokens,
            d.capability_overrides == optional_json(r.capabilities_json, capabilities),
            d.provider_options == optional_json(r.provider_options_json, options),
            d.is_manual == r.is_manual,
    {
        let capability_overrides = match r.capabilities_json {
            Some(_) => capabilities,
            None => None,
        };
        let provider_options = match r.provider_options_json {
            Some(_) => options,
            None => None,
        };
        ProviderModelSettingsDto {
            id: r.id,
            provider_id: r.provider_id,
            model_id: r.model_name,
            sort_index: r.sort_index,
            display_name: r.display_name,
            enabled: r.enabled,
            context_window: r.context_window,
            max_output_tokens: r.max_output_tokens,
            capability_overrides,
            provider_options,
            is_manual: r.is_manual,
        }
    }
}

/// A provider as shown in settings, with its models.
#[derive(Debug)]
pub struct ProviderSettingsDto {
    pub id: String,
    pub kind: String,
    pub provider_key: String,
    pub provider_type: String,
    pub display_name: String,
    pub enabled: bool,
    pub locked_mapping: bool,
    pub base_url: String,
    pub has_api_key: bool,
    pub custom_headers: Option<Json>,
    pub models: Vec<ProviderModelSettingsDto>,
    pub created_at: String,
    pub updated_at: String,
}

impl ProviderSettingsDto {
    /// The settings view of a provider row and its models (already in their
    /// settings view, in order). `headers` is what serde_json reads from
    /// `custom_headers_json` (`None` when it does not parse); the API key
    /// itself is not shown, only whether there is one.
    pub fn from_record(record: ProviderRecord, headers: Option<Json>, models: Vec<ProviderModelSettingsDto>) -> (d: Self)
        ensures
            d.id == record.id && d.kind@ == record.provider_kind.name(),
            d.provider_key == record.provider_key && d.provider_type == record.provider_type,
            d.display_name == record.display_name && d.enabled == record.enabled,
            d.locked_mapping == record.mapping_locked && d.base_url == record.base_url,
            d.has_api_key == record.api_key_encrypted is Some,
            d.custom_headers == optional_json(record.custom_headers_json, headers),
            d.models == models,
            d.created_at == record.created_at && d.updated_at == record.updated_at,
    {
        let custom_headers = match record.custom_headers_json {
            Some(_) => headers,
            None => None,
        };
        let has_api_key = match record.api_key_encrypted {
            Some(_) => true,
            None => false,
        };
        ProviderSettingsDto {
            id: record.id,
            kind: String::from_str(record.provider_kind.as_str()),
            provider_key: record.provider_key,
            provider_type: record.provider_type,
            display_name: record.display_name,
            enabled: record.enabled,
            locked_mapping: record.mapping_locked,
            base_url: record.base_url,
            has_api_key,
            custom_headers,
            models,
            created_at: record.created_at,
            updated_at: record.updated_at,
        }
    }
}

/// Outcome of a connection test against a model.
#[derive(Debug, Clone)]
pub struct ProviderModelConnectionTestResultDto {
    pub success: bool,
    pub unsupported: bool,
    pub message: String,
    pub detail: Option<String>,
}

/// A stored agent profile row.
#[derive(Debug, Clone)]
pub struct AgentProfileRecord {
    pub id: String,
    pub name: String,
    pub custom_instructions: Option<String>,
    pub commit_message_prompt: Option<String>,
    pub response_style: Option<String>,
    pub response_language: Option<String>,
    pub commit_message_language: Option<String>,
    pub thinking_level: Option<String>,
    pub primary_provider_id: Option<String>,
    pub primary_model_id: Option<String>,
    pub auxiliary_provider_id: Option<String>,
    pub auxiliary_model_id: Option<String>,
    pub lightweight_provider_id: Option<String>,
    pub lightweight_model_id: Option<String>,
    pub is_default: bool,
    pub created_at: String,
    pub updated_at: String,
}

/// An agent profile as sent to the frontend.
#[derive(Debug, Clone)]
pub struct AgentProfileDto {
    pub id: String,
    pub name: String,
    pub custom_instructions: Option<String>,
    pub commit_message_prompt: Option<String>,
    pub response_style: Option<String>,
    pub response_language: Option<String>,
    pub commit_message_language: Option<String>,
    pub thinking_level: Option<String>,
    pub primary_provider_id: Option<String>,
    pub primary_model_id: Option<String>,
    pub auxiliary_provider_id: Option<String>,
    pub auxiliary_model_id: Option<String>,
    pub lightweight_provider_id: Option<String>,
    pub lightweight_model_id: Option<String>,
    pub is_default: bool,
    pub created_at: String,
    pub updated_at: String,
}

/// The DTO of a profile row: every field carried over unchanged.
pub open spec fn agent_profile_dto_of(r: AgentProfileRecord) -> AgentProfileDto {
    AgentProfileDto {
        id: r.id,
        name: r.name,
        custom_instructions: r.custom_instructions,
        commit_message_prompt: r.commit_message_prompt,
        response_style: r.response_style,
        response_language: r.response_language,
        commit_message_language: r.commit_message_language,
        thinking_level: r.thinking_level,
        primary_provider_id: r.primary_provider_id,
        primary_model_id: r.primary_model_id,
        auxiliary_provider_id: r.auxiliary_provider_id,
        auxiliary_model_id: r.auxiliary_model_id,
        lightweight_provider_id: r.lightweight_provider_id,
        lightweight_model_id: r.lightweight_model_id,
        is_default: r.is_default,
        created_at: r.created_at,
        updated_at: r.updated_at,
    }
}

impl From<AgentProfileRecord> for AgentProfileDto {
    fn from(r: AgentProfileRecord) -> (d: AgentProfileDto)
        ensures
            d == agent_profile_dto_of(r),
    {
        AgentProfileDto {
            id: r.id,
            name: r.name,
            custom_instructions: r.custom_instructions,
            commit_message_prompt: r.commit_message_prompt,
            response_style: r.response_style,
            response_language: r.response_language,
            commit_message_language: r.commit_message_language,
            thinking_level: r.thinking_level,
            primary_provider_id: r.primary_provider_id,
            primary_model_id: r.primary_model_id,
            auxiliary_provider_id: r.auxiliary_provider_id,
            auxiliary_model_id: r.auxiliary_model_id,
            lightweight_provider_id: r.lightweight_provider_id,
            lightweight_model_id: r.lightweight_model_id,
            is_default: r.is_default,
            created_at: r.created_at,
            updated_at: r.updated_at,
        }
    }
}

impl vstd::std_specs::convert::FromSpecImpl<AgentProfileRecord> for AgentProfileDto {
    open spec fn obeys_from_spec() -> bool {
        true
    }

    open spec fn from_spec(v: AgentProfileRecord) -> AgentProfileDto {
        agent_profile_dto_of(v)
    }
}

/// Input for creating or updating an agent profile.
#[derive(Debug)]
pub struct AgentProfileInput {
    pub name: String,
    pub custom_instructions: Option<String>,
    pub commit_message_prompt: Option<String>,
    pub response_style: Option<String>,
    pub response_language: Option<String>,
    pub commit_message_language: Option<String>,
    pub thinking_level: Option<String>,
    pub primary_provider_id: Option<String>,
    pub primary_model_id: Option<String>,
    pub auxiliary_provider_id: Option<String>,
    pub auxiliary_model_id: Option<String>,
    pub lightweight_provider_id: Option<String>,
    pub lightweight_model_id: Option<String>,
    pub is_default: Option<bool>,
}

} // verus!
