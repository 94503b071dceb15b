//! Key/value settings and prompt commands.
use vstd::prelude::*;
use crate::json::Json;

verus! {

/// A single row of the `settings` (or `policies`) table.
#[derive(Debug, Clone)]
pub struct SettingRecord {
    pub key: String,
    pub value_json: String,
    pub updated_at: String,
}

/// A setting as sent to the frontend, its value parsed.
#[derive(Debug)]
pub struct SettingDto {
    pub key: String,
    pub value: Json,
    pub updated_at: String,
}

/// The JSON a stored text holds, where it parses (`parsed`); `null` where it
/// does not.
pub open spec fn parsed_or_null(parsed: Option<Json>) -> Json {
    match parsed {
        Some(v) => v,
        None => Json::Null,
    }
}

impl SettingRecord {
    /// The setting for the frontend. `parsed_value` is what serde_json reads
    /// from `value_json` (`None` when it is no JSON); a value that does not
    /// parse is shown as `null`.
    pub fn into_dto(self, parsed_value: Option<Json>) -> (r: SettingDto)
        ensures
            r.key == self.key,
            r.value == parsed_or_null(parsed_value),
            r.updated_at == self.updated_at,
    {
        let value = match parsed_value {
            Some(v) => v,
            None => Json::Null,
        };
        SettingDto { key: self.key, value, updated_at: self.updated_at }
    }
}

/// A prompt command as sent to the frontend.
#[derive(Debug, Clone)]
pub struct PromptCommandDto {
    pub id: String,
    pub name: String,
    pub path: String,
    pub argument_hint: String,
    pub description: String,
    pub prompt: String,
    pub source: String,
    pub enabled: bool,
    pub version: u32,
    pub file_name: String,
}

/// Input for creating or updating a prompt command.
#[derive(Debug, Clone)]
pub struct PromptCommandInput {
    pub id: Option<String>,
    pub name: String,
    pub path: String,
    pub argument_hint: Option<String>,
    pub description: Option<String>,
    pub prompt: String,
    pub source: Option<String>,
    pub enabled: Option<bool>,
    pub version: Option<u32>,
}

} // verus!
