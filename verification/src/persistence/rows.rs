//! Rows of the SQLite tables, and how each becomes a model record or DTO.
//! Integer flags are stored as `0`/non-zero, token counts as signed numbers.
use vstd::prelude::*;
use crate::json::{deref_json, get_text, json_get, Json};
use crate::model::goal::{GoalRecord, GoalStatus, PauseReason};
use crate::model::provider::{AgentProfileRecord, ProviderKind, ProviderModelRecord, ProviderRecord};
use crate::model::settings::SettingRecord;
use crate::model::subagent::{CustomSubagentModelRole, CustomSubagentRecord};
use crate::model::task_board::{TaskBoardRecord, TaskBoardStatus};
use crate::model::task_item::{TaskItemRecord, TaskStage};
use crate::model::terminal::{TerminalSessionRecord, TerminalSessionStatus};
use crate::model::thread::{MessageRecord, ToolCallDto, RunHelperDto, RunSummaryDto, RunUsageDto, ThreadRecord, ThreadStatus};
use crate::model::workspace::{WorkspaceKind, WorkspaceRecord, WorkspaceStatus};
use crate::text::clone_string;
use crate::time::{rfc3339_instant, UtcDateTime};

verus! {

/// A stored token count as an unsigned number; negative counts read as zero.
pub open spec fn token_count(n: i64) -> u64 {
    if n < 0 {
        0
    } else {
        n as u64
    }
}

fn to_count(n: i64) -> (r: u64)
    ensures
        r == token_count(n),
{
    if n < 0 {
        0
    } else {
        n as u64
    }
}

/// The usage a row's five token columns describe.
pub open spec fn usage_of(input: i64, output: i64, cache_read: i64, cache_write: i64, total: i64) -> RunUsageDto {
    RunUsageDto {
        input_tokens: token_count(input),
        output_tokens: token_count(output),
        cache_read_tokens: token_count(cache_read),
        cache_write_tokens: token_count(cache_write),
        total_tokens: token_count(total),
    }
}

fn usage_from(input: i64, output: i64, cache_read: i64, cache_write: i64, total: i64) -> (r: RunUsageDto)
    ensures
        r == usage_of(input, output, cache_read, cache_write, total),
{
    RunUsageDto {
        input_tokens: to_count(input),
        output_tokens: to_count(output),
        cache_read_tokens: to_count(cache_read),
        cache_write_tokens: to_count(cache_write),
        total_tokens: to_count(total),
    }
}

/// A row of `custom_subagents`.
#[derive(Debug, Clone)]
pub struct SubagentRow {
    pub id: String,
    pub name: String,
    pub slug: String,
    pub system_prompt: String,
    pub invocation_description: String,
    pub allowed_tools: String,
    pub model_role: String,
    pub is_enabled: i32,
    pub can_delegate: i32,
    pub max_delegation_depth: i32,
    pub created_at: String,
    pub updated_at: String,
}

impl SubagentRow {
    /// The record this row holds.
    pub fn into_record(self) -> (r: CustomSubagentRecord)
        ensures
            r == (CustomSubagentRecord {
                id: self.id,
                name: self.name,
                slug: self.slug,
                system_prompt: self.system_prompt,
                invocation_description: self.invocation_description,
                allowed_tools: self.allowed_tools,
                model_role: CustomSubagentModelRole::from_name(self.model_role@),
                is_enabled: self.is_enabled != 0,
                created_at: self.created_at,
                updated_at: self.updated_at,
            }),
    {
        let model_role = CustomSubagentModelRole::from_db(self.model_role.as_str());
        CustomSubagentRecord {
            id: self.id,
            name: self.name,
            slug: self.slug,
            system_prompt: self.system_prompt,
            invocation_description: self.invocation_description,
            allowed_tools: self.allowed_tools,
            model_role,
            is_enabled: self.is_enabled != 0,
            created_at: self.created_at,
            updated_at: self.updated_at,
        }
    }
}

/// A row of `messages`.
#[derive(Debug, Clone)]
pub struct MessageRow {
    pub id: String,
    pub thread_id: String,
    pub run_id: Option<String>,
    pub role: String,
    pub content_markdown: String,
    pub message_type: String,
    pub status: String,
    pub metadata_json: Option<String>,
    pub attachments_json: Option<String>,
    pub created_at: String,
}

/// A row of the `tool_calls` table.
#[derive(Debug, Clone)]
pub struct ToolCallRow {
    pub storage_id: String,
    pub tool_call_id: String,
    pub run_id: String,
    pub thread_id: String,
    pub helper_id: Option<String>,
    pub tool_name: String,
    pub tool_input_json: String,
    pub tool_output_json: Option<String>,
    pub status: String,
    pub approval_status: Option<String>,
    pub started_at: String,
    pub finished_at: Option<String>,
}

impl ToolCallRow {
    /// The tool call for the frontend. `input` and `output` are what
    /// serde_json reads from `tool_input_json` and `tool_output_json`
    /// (`None` when a text does not parse): an input that does not parse is
    /// shown as its text, an output only where it parses.
    pub fn into_dto(self, input: Option<Json>, output: Option<Json>) -> (d: ToolCallDto)
        ensures
            d.id == self.tool_call_id && d.storage_id == self.storage_id,
            d.run_id == self.run_id && d.thread_id == self.thread_id && d.helper_id == self.helper_id,
            d.tool_name == self.tool_name,
            d.tool_input == (match input {
                Some(v) => v,
                None => Json::Str(self.tool_input_json),
            }),
            d.tool_output == (match self.tool_output_json {
                Some(_) => output,
                None => None,
            }),
            d.status == self.status && d.approval_status == self.approval_status,
            d.started_at == self.started_at && d.finished_at == self.finished_at,
    {
        let tool_input = match input {
            Some(v) => v,
            None => Json::Str(self.tool_input_json),
        };
        let tool_output = match self.tool_output_json {
            Some(_) => output,
            None => None,
        };
        ToolCallDto {
            id: self.tool_call_id,
            storage_id: self.storage_id,
            run_id: self.run_id,
            thread_id: self.thread_id,
            helper_id: self.helper_id,
            tool_name: self.tool_name,
            tool_input,
            tool_output,
            status: self.status,
            approval_status: self.approval_status,
            started_at: self.started_at,
            finished_at: self.finished_at,
        }
    }
}

impl MessageRow {
    /// The message record; the row carries no structured parts.
    pub fn into_record(self) -> (r: MessageRecord)
        ensures
            r == (MessageRecord {
                id: self.id,
                thread_id: self.thread_id,
                run_id: self.run_id,
                role: self.role,
                content_markdown: self.content_markdown,
                parts_json: None,
                message_type: self.message_type,
                status: self.status,
                metadata_json: self.metadata_json,
                attachments_json: self.attachments_json,
                created_at: self.created_at,
            }),
    {
        MessageRecord {
            id: self.id,
            thread_id: self.thread_id,
            run_id: self.run_id,
            role: self.role,
            content_markdown: self.content_markdown,
            parts_json: None,
            message_type: self.message_type,
            status: self.status,
            metadata_json: self.metadata_json,
            attachments_json: self.attachments_json,
            created_at: self.created_at,
        }
    }
}

/// The boundary message id a context-reset marker's metadata names: a
/// non-empty string under `boundaryMessageId`.
pub open spec fn boundary_message_id(metadata: Option<Json>) -> Option<Seq<char>> {
    match metadata {
        Some(v) => match get_text(v, "boundaryMessageId"@) {
            Some(id) => if id.len() == 0 {
                None
            } else {
                Some(id)
            },
            None => None,
        },
        None => None,
    }
}

/// The boundary message id of a marker's parsed metadata; absent or
/// unparsable metadata is `None`.
pub fn extract_boundary_message_id(metadata: Option<&Json>) -> (r: Option<String>)
    ensures
        match r {
            Some(id) => boundary_message_id(deref_json(metadata)) == Some(id@),
            None => boundary_message_id(deref_json(metadata)) is None,
        },
{
    match metadata {
        Some(v) => match v.get_str("boundaryMessageId") {
            Some(id) => if id.as_str().unicode_len() == 0 {
                None
            } else {
                Some(clone_string(id))
            },
            None => None,
        },
        None => None,
    }
}

/// Whether a message's parsed metadata has `kind` equal to `expected`.
pub open spec fn metadata_kind_is(metadata: Option<Json>, expected: Seq<char>) -> bool {
    match metadata {
        Some(v) => get_text(v, "kind"@) == Some(expected),
        None => false,
    }
}

/// Whether a message's parsed metadata (`None` when absent or not JSON)
/// has the string `kind` `expected`.
pub fn metadata_kind_matches(metadata: Option<&Json>, expected: &str) -> (r: bool)
    ensures
        r == metadata_kind_is(deref_json(metadata), expected@),
{
    match metadata {
        Some(v) => match v.get_str("kind") {
            Some(k) => crate::text::str_eq(k.as_str(), expected),
            None => false,
        },
        None => false,
    }
}

/// A summary-marker message: its id and parsed metadata.
#[derive(Debug)]
pub struct MarkerRow {
    pub id: String,
    pub metadata: Option<Json>,
}

/// The context reset a thread's history starts after: the marker's id and
/// the boundary it names.
#[derive(Debug)]
pub struct ContextResetMarker {
    pub id: String,
    pub boundary_message_id: Option<String>,
}

/// The first marker, in the given (newest first) order, that is a context
/// reset.
pub open spec fn first_reset(rows: Seq<MarkerRow>) -> Option<int>
    decreases rows.len(),
{
    if rows.len() == 0 {
        None
    } else if metadata_kind_is(rows[0].metadata, "context_reset"@) {
        Some(0)
    } else {
        match first_reset(rows.drop_first()) {
            Some(i) => Some(i + 1),
            None => None,
        }
    }
}

proof fn lemma_first_reset_skip(rows: Seq<MarkerRow>, i: int)
    requires
        0 <= i < rows.len(),
        forall|k: int| 0 <= k < i ==> !metadata_kind_is(#[trigger] rows[k].metadata, "context_reset"@),
    ensures
        first_reset(rows) == match first_reset(rows.skip(i)) {
            Some(j) => Some(j + i),
            None => None::<int>,
        },
    decreases i,
{
    if i > 0 {
        assert(!metadata_kind_is(rows[0].metadata, "context_reset"@));
        let rest = rows.drop_first();
        assert forall|k: int| 0 <= k < i - 1 implies !metadata_kind_is(#[trigger] rest[k].metadata, "context_reset"@) by {
            assert(rest[k] == rows[k + 1]);
        }
        lemma_first_reset_skip(rest, i - 1);
        assert(rest.skip(i - 1) =~= rows.skip(i));
    } else {
        assert(rows.skip(0) =~= rows);
    }
}

/// The latest context reset among a thread's summary markers (newest
/// first): the first whose metadata kind is `context_reset`.
pub fn find_last_context_reset(rows: &Vec<MarkerRow>) -> (r: Option<ContextResetMarker>)
    ensures
        match first_reset(rows@) {
            Some(i) => r matches Some(m) && m.id@ == rows@[i].id@ && crate::text::opt_view(m.boundary_message_id)
                == boundary_message_id(rows@[i].metadata),
            None => r is None,
        },
{
    let mut i: usize = 0;
    while i < rows.len()
        invariant
            i <= rows@.len(),
            forall|k: int| 0 <= k < i ==> !metadata_kind_is(#[trigger] rows@[k].metadata, "context_reset"@),
        decreases rows@.len() - i,
    {
        let row = &rows[i];
        let meta = match &row.metadata {
            Some(m) => Some(m),
            None => None,
        };
        if metadata_kind_matches(meta, "context_reset") {
            proof {
                lemma_first_reset_skip(rows@, i as int);
                assert(rows@.skip(i as int)[0] == rows@[i as int]);
            }
            let b = extract_boundary_message_id(meta);
            return Some(ContextResetMarker { id: clone_string(&row.id), boundary_message_id: b });
        }
        i += 1;
    }
    proof {
        assert forall|j: int| 0 <= j <= rows@.len() implies first_reset(rows@.skip(j)) is None by {
            lemma_no_reset_suffix(rows@, j);
        }
        assert(rows@.skip(0) =~= rows@);
    }
    None
}

proof fn lemma_no_reset_suffix(rows: Seq<MarkerRow>, j: int)
    requires
        0 <= j <= rows.len(),
        forall|k: int| 0 <= k < rows.len() ==> !metadata_kind_is(#[trigger] rows[k].metadata, "context_reset"@),
    ensures
        first_reset(rows.skip(j)) is None,
    decreases rows.len() - j,
{
    if j < rows.len() {
        lemma_no_reset_suffix(rows, j + 1);
        assert(rows.skip(j).drop_first() =~= rows.skip(j + 1));
        assert(rows.skip(j)[0] == rows[j]);
    }
}

/// The id from which a thread's messages are listed after a reset: the
/// boundary it names, else the marker itself.
pub fn reset_cursor(marker: &ContextResetMarker) -> (r: String)
    ensures
        r@ == match marker.boundary_message_id {
            Some(b) => b@,
            None => marker.id@,
        },
{
    match &marker.boundary_message_id {
        Some(b) => clone_string(b),
        None => clone_string(&marker.id),
    }
}

/// The query offset of the `n`-th newest message (counting from one), as
/// `n as i64` less one (saturating); `None` for zero, which names no message.
/// A count beyond `i64::MAX` gives a negative offset.
pub fn nth_from_end_offset(n: usize) -> (r: Option<i64>)
    ensures
        n == 0 ==> r is None,
        0 < n <= i64::MAX ==> r == Some((n - 1) as i64),
        n > i64::MAX ==> (r matches Some(o) && o < 0),
{
    if n == 0 {
        None
    } else {
        let m = n as i64;
        assert(n > 0x7fff_ffff_ffff_ffff ==> (n as i64) < 0) by (bit_vector);
        if m == i64::MIN {
            Some(i64::MIN)
        } else {
            Some(m - 1)
        }
    }
}

/// A row of `agent_profiles`.
#[derive(Debug, Clone)]
pub struct ProfileRow {
    pub id: String,
    pub name: String,
    pub custom_instructions: Option<String>,
    pub response_style: Option<String>,
    pub response_language: Option<String>,
    pub primary_provider_id: Option<String>,
    pub primary_model_id: Option<String>,
    pub auxiliary_provider_id: Option<String>,
    pub auxiliary_model_id: Option<String>,
    pub lightweight_provider_id: Option<String>,
    pub lightweight_model_id: Option<String>,
    pub is_default: i32,
    pub created_at: String,
    pub updated_at: String,
}

impl ProfileRow {
    /// The profile record; settings the row does not store are absent.
    pub fn into_record(self) -> (r: AgentProfileRecord)
        ensures
            r == (AgentProfileRecord {
                id: self.id,
                name: self.name,
                custom_instructions: self.custom_instructions,
                commit_message_prompt: None,
                response_style: self.response_style,
                response_language: self.response_language,
                commit_message_language: None,
                thinking_level: None,
                primary_provider_id: self.primary_provider_id,
                primary_model_id: self.primary_model_id,
                auxiliary_provider_id: self.auxiliary_provider_id,
                auxiliary_model_id: self.auxiliary_model_id,
                lightweight_provider_id: self.lightweight_provider_id,
                lightweight_model_id: self.lightweight_model_id,
                is_default: self.is_default != 0,
                created_at: self.created_at,
                updated_at: self.updated_at,
            }),
    {
        AgentProfileRecord {
            id: self.id,
            name: self.name,
            custom_instructions: self.custom_instructions,
            commit_message_prompt: None,
            response_style: self.response_style,
            response_language: self.response_language,
            commit_message_language: None,
            thinking_level: None,
            primary_provider_id: self.primary_provider_id,
            primary_model_id: self.primary_model_id,
            auxiliary_provider_id: self.auxiliary_provider_id,
            auxiliary_model_id: self.auxiliary_model_id,
            lightweight_provider_id: self.lightweight_provider_id,
            lightweight_model_id: self.lightweight_model_id,
            is_default: self.is_default != 0,
            created_at: self.created_at,
            updated_at: self.updated_at,
        }
    }
}

/// A row of `providers`.
#[derive(Debug, Clone)]
pub struct ProviderRow {
    pub id: String,
    pub provider_kind: String,
    pub provider_key: String,
    pub protocol_type: String,
    pub name: String,
    pub base_url: String,
    pub api_key_encrypted: Option<String>,
    pub enabled: i32,
    pub mapping_locked: i32,
    pub custom_headers_json: Option<String>,
    pub created_at: String,
    pub updated_at: String,
}

impl ProviderRow {
    /// The record this row holds.
    pub fn into_record(self) -> (r: ProviderRecord)
        ensures
            r == (ProviderRecord {
                id: self.id,
                provider_kind: ProviderKind::from_name(self.provider_kind@),
                provider_key: self.provider_key,
                provider_type: self.protocol_type,
                display_name: self.name,
                base_url: self.base_url,
                api_key_encrypted: self.api_key_encrypted,
                enabled: self.enabled != 0,
                mapping_locked: self.mapping_locked != 0,
                custom_headers_json: self.custom_headers_json,
                created_at: self.created_at,
                updated_at: self.updated_at,
            }),
    {
        ProviderRecord {
            id: self.id,
            provider_kind: ProviderKind::from(self.provider_kind),
            provider_key: self.provider_key,
            provider_type: self.protocol_type,
            display_name: self.name,
            base_url: self.base_url,
            api_key_encrypted: self.api_key_encrypted,
            enabled: self.enabled != 0,
            mapping_locked: self.mapping_locked != 0,
            custom_headers_json: self.custom_headers_json,
            created_at: self.created_at,
            updated_at: self.updated_at,
        }
    }
}

/// A row of `provider_models`.
#[derive(Debug, Clone)]
pub struct ModelRow {
    pub id: String,
    pub provider_id: String,
    pub model_name: String,
    pub sort_index: i64,
    pub display_name: Option<String>,
    pub enabled: i32,
    pub context_window: Option<String>,
    pub max_output_tokens: Option<String>,
    pub capabilities_json: Option<String>,
    pub provider_options_json: Option<String>,
    pub is_manual: i32,
    pub created_at: String,
}

impl ModelRow {
    /// The record this row holds.
    pub fn into_record(self) -> (r: ProviderModelRecord)
        ensures
            r == (ProviderModelRecord {
                id: self.id,
                provider_id: self.provider_id,
                model_name: self.model_name,
                sort_index: self.sort_index,
                display_name: self.display_name,
                enabled: self.enabled != 0,
                context_window: self.context_window,
                max_output_tokens: self.max_output_tokens,
                capabilities_json: self.capabilities_json,
                provider_options_json: self.provider_options_json,
                is_manual: self.is_manual != 0,
                created_at: self.created_at,
            }),
    {
        ProviderModelRecord {
            id: self.id,
            provider_id: self.provider_id,
            model_name: self.model_name,
            sort_index: self.sort_index,
            display_name: self.display_name,
            enabled: self.enabled != 0,
            context_window: self.context_window,
            max_output_tokens: self.max_output_tokens,
            capabilities_json: self.capabilities_json,
            provider_options_json: self.provider_options_json,
            is_manual: self.is_manual != 0,
            created_at: self.created_at,
        }
    }
}

/// A row of `run_helpers`.
#[derive(Debug, Clone)]
pub struct RunHelperRow {
    pub id: String,
    pub run_id: String,
    pub thread_id: String,
    pub helper_kind: String,
    pub parent_tool_call_id: Option<String>,
    pub status: String,
    pub input_summary: Option<String>,
    pub output_summary: Option<String>,
    pub error_summary: Option<String>,
    pub started_at: String,
    pub finished_at: Option<String>,
    pub input_tokens: i64,
    pub output_tokens: i64,
    pub cache_read_tokens: i64,
    pub cache_write_tokens: i64,
    pub total_tokens: i64,
}

impl RunHelperRow {
    /// The DTO this row holds.
    pub fn into_dto(self) -> (r: RunHelperDto)
        ensures
            r == (RunHelperDto {
                id: self.id,
                run_id: self.run_id,
                thread_id: self.thread_id,
                helper_kind: self.helper_kind,
                parent_tool_call_id: self.parent_tool_call_id,
                status: self.status,
                input_summary: self.input_summary,
                output_summary: self.output_summary,
                error_summary: self.error_summary,
                started_at: self.started_at,
                finished_at: self.finished_at,
                usage: usage_of(
                    self.input_tokens,
                    self.output_tokens,
                    self.cache_read_tokens,
                    self.cache_write_tokens,
                    self.total_tokens,
                ),
            }),
    {
        let usage = usage_from(
            self.input_tokens,
            self.output_tokens,
            self.cache_read_tokens,
            self.cache_write_tokens,
            self.total_tokens,
        );
        RunHelperDto {
            id: self.id,
            run_id: self.run_id,
            thread_id: self.thread_id,
            helper_kind: self.helper_kind,
            parent_tool_call_id: self.parent_tool_call_id,
            status: self.status,
            input_summary: self.input_summary,
            output_summary: self.output_summary,
            error_summary: self.error_summary,
            started_at: self.started_at,
            finished_at: self.finished_at,
            usage,
        }
    }
}

/// Values inserted as a new run helper.
#[derive(Debug, Clone)]
pub struct RunHelperInsert {
    pub id: String,
    pub run_id: String,
    pub thread_id: String,
    pub helper_kind: String,
    pub parent_tool_call_id: Option<String>,
    pub status: String,
    pub model_role: String,
    pub provider_id: Option<String>,
    pub model_id: Option<String>,
    pub input_summary: Option<String>,
}

/// A row of `thread_runs`, its model plan already parsed (`None` when the
/// column is empty or not JSON).
#[derive(Debug)]
pub struct RunRow {
    pub id: String,
    pub thread_id: String,
    pub run_mode: String,
    pub status: String,
    pub model_id: Option<String>,
    pub effective_model_plan: Option<Json>,
    pub error_message: Option<String>,
    pub started_at: String,
    pub input_tokens: i64,
    pub output_tokens: i64,
    pub cache_read_tokens: i64,
    pub cache_write_tokens: i64,
    pub total_tokens: i64,
}

/// Values inserted as a new run.
#[derive(Debug, Clone)]
pub struct RunInsert {
    pub id: String,
    pub thread_id: String,
    pub profile_id: Option<String>,
    pub run_mode: String,
    pub provider_id: Option<String>,
    pub model_id: Option<String>,
    pub effective_model_plan_json: Option<String>,
    pub status: String,
}

/// The `primary` entry of a model plan, when it is an object.
pub open spec fn plan_primary(plan: Option<Json>) -> Option<Json> {
    match plan {
        Some(v) => match json_get(v, "primary"@) {
            Some(p) => if p is Object {
                Some(p)
            } else {
                None
            },
            None => None,
        },
        None => None,
    }
}

/// The primary model's display name: `modelDisplayName`, else `model`.
pub open spec fn plan_model_display_name(plan: Option<Json>) -> Option<Seq<char>> {
    match plan_primary(plan) {
        Some(p) => match get_text(p, "modelDisplayName"@) {
            Some(s) => Some(s),
            None => get_text(p, "model"@),
        },
        None => None,
    }
}

/// The primary model's `contextWindow` text.
pub open spec fn plan_context_window(plan: Option<Json>) -> Option<Seq<char>> {
    match plan_primary(plan) {
        Some(p) => get_text(p, "contextWindow"@),
        None => None,
    }
}

/// The characters of an optional string.
pub open spec fn opt_text(o: Option<String>) -> Option<Seq<char>> {
    match o {
        Some(s) => Some(s@),
        None => None,
    }
}

/// The display name and context window of a run's primary model.
pub fn extract_primary_model_details(plan: Option<&Json>) -> (r: (Option<String>, Option<String>))
    ensures
        opt_text(r.0) == plan_model_display_name(deref_json(plan)),
        opt_text(r.1) == plan_context_window(deref_json(plan)),
{
    let v = match plan {
        Some(v) => v,
        None => return (None, None),
    };
    let primary = match v.get("primary") {
        Some(p) => if p.is_object() {
            p
        } else {
            return (None, None);
        },
        None => return (None, None),
    };
    let display = match primary.get_str("modelDisplayName") {
        Some(s) => Some(clone_string(s)),
        None => match primary.get_str("model") {
            Some(s) => Some(clone_string(s)),
            None => None,
        },
    };
    let context = match primary.get_str("contextWindow") {
        Some(s) => Some(clone_string(s)),
        None => None,
    };
    (display, context)
}

/// The run summary of a run row.
pub fn map_run_summary(row: RunRow) -> (r: RunSummaryDto)
    ensures
        r.id == row.id && r.thread_id == row.thread_id && r.run_mode == row.run_mode,
        r.status == row.status && r.model_id == row.model_id,
        opt_text(r.model_display_name) == plan_model_display_name(row.effective_model_plan),
        opt_text(r.context_window) == plan_context_window(row.effective_model_plan),
        r.error_message == row.error_message && r.started_at == row.started_at,
        r.usage == usage_of(
            row.input_tokens,
            row.output_tokens,
            row.cache_read_tokens,
            row.cache_write_tokens,
            row.total_tokens,
        ),
{
    let (model_display_name, context_window) = extract_primary_model_details(
        row.effective_model_plan.as_ref(),
    );
    let usage = usage_from(
        row.input_tokens,
        row.output_tokens,
        row.cache_read_tokens,
        row.cache_write_tokens,
        row.total_tokens,
    );
    RunSummaryDto {
        id: row.id,
        thread_id: row.thread_id,
        run_mode: row.run_mode,
        status: row.status,
        model_id: row.model_id,
        model_display_name,
        context_window,
        error_message: row.error_message,
        started_at: row.started_at,
        usage,
    }
}

/// A row of `settings` or `policies`.
#[derive(Debug, Clone)]
pub struct KvRow {
    pub key: String,
    pub value_json: String,
    pub updated_at: String,
}

impl KvRow {
    /// The record this row holds.
    pub fn into_record(self) -> (r: SettingRecord)
        ensures
            r == (SettingRecord { key: self.key, value_json: self.value_json, updated_at: self.updated_at }),
    {
        SettingRecord { key: self.key, value_json: self.value_json, updated_at: self.updated_at }
    }
}

/// A row of `task_boards`.
#[derive(Debug, Clone)]
pub struct TaskBoardRow {
    pub id: String,
    pub thread_id: String,
    pub title: String,
    pub status: String,
    pub active_task_id: Option<String>,
    pub created_at: String,
    pub updated_at: String,
}

impl TaskBoardRow {
    /// The record this row holds.
    pub fn into_record(self) -> (r: TaskBoardRecord)
        ensures
            r == (TaskBoardRecord {
                id: self.id,
                thread_id: self.thread_id,
                title: self.title,
                status: TaskBoardStatus::from_name(self.status@),
                active_task_id: self.active_task_id,
                created_at: self.created_at,
                updated_at: self.updated_at,
            }),
    {
        let status = TaskBoardStatus::from_db_str(self.status.as_str());
        TaskBoardRecord {
            id: self.id,
            thread_id: self.thread_id,
            title: self.title,
            status,
            active_task_id: self.active_task_id,
            created_at: self.created_at,
            updated_at: self.updated_at,
        }
    }
}

/// A row of `task_items`.
#[derive(Debug, Clone)]
pub struct TaskItemRow {
    pub id: String,
    pub task_board_id: String,
    pub description: String,
    pub stage: String,
    pub sort_order: i32,
    pub error_detail: Option<String>,
    pub created_at: String,
    pub updated_at: String,
}

impl TaskItemRow {
    /// The record this row holds.
    pub fn into_record(self) -> (r: TaskItemRecord)
        ensures
            r == (TaskItemRecord {
                id: self.id,
                task_board_id: self.task_board_id,
                description: self.description,
                stage: TaskStage::from_name(self.stage@),
                sort_order: self.sort_order,
                error_detail: self.error_detail,
                created_at: self.created_at,
                updated_at: self.updated_at,
            }),
    {
        let stage = TaskStage::from_db_str(self.stage.as_str());
        TaskItemRecord {
            id: self.id,
            task_board_id: self.task_board_id,
            description: self.description,
            stage,
            sort_order: self.sort_order,
            error_detail: self.error_detail,
            created_at: self.created_at,
            updated_at: self.updated_at,
        }
    }
}

/// A row of `terminal_sessions`.
#[derive(Debug, Clone)]
pub struct TerminalSessionRow {
    pub id: String,
    pub thread_id: String,
    pub workspace_id: String,
    pub shell_path: Option<String>,
    pub cwd: Option<String>,
    pub status: String,
    pub pid: Option<i64>,
    pub exit_code: Option<i32>,
    pub created_at: String,
    pub exited_at: Option<String>,
}

impl TerminalSessionRow {
    /// The record this row holds.
    pub fn into_record(self) -> (r: TerminalSessionRecord)
        ensures
            r == (TerminalSessionRecord {
                id: self.id,
                thread_id: self.thread_id,
                workspace_id: self.workspace_id,
                shell_path: self.shell_path,
                cwd: self.cwd,
                status: TerminalSessionStatus::from_name(self.status@),
                pid: self.pid,
                exit_code: self.exit_code,
                created_at: self.created_at,
                exited_at: self.exited_at,
            }),
    {
        let status = TerminalSessionStatus::from_str(self.status.as_str());
        TerminalSessionRecord {
            id: self.id,
            thread_id: self.thread_id,
            workspace_id: self.workspace_id,
            shell_path: self.shell_path,
            cwd: self.cwd,
            status,
            pid: self.pid,
            exit_code: self.exit_code,
            created_at: self.created_at,
            exited_at: self.exited_at,
        }
    }
}

/// A row of `threads`.
#[derive(Debug, Clone)]
pub struct ThreadRow {
    pub id: String,
    pub workspace_id: String,
    pub title: String,
    pub status: String,
    pub summary: Option<String>,
    pub last_active_at: String,
    pub created_at: String,
    pub updated_at: String,
}

impl ThreadRow {
    /// The thread record; the row carries no profile.
    pub fn into_record(self) -> (r: ThreadRecord)
        ensures
            r == (ThreadRecord {
                id: self.id,
                workspace_id: self.workspace_id,
                profile_id: None,
                title: self.title,
                status: ThreadStatus::from_name(self.status@),
                summary: self.summary,
                last_active_at: self.last_active_at,
                created_at: self.created_at,
                updated_at: self.updated_at,
            }),
    {
        let status = ThreadStatus::from_str(self.status.as_str());
        ThreadRecord {
            id: self.id,
            workspace_id: self.workspace_id,
            profile_id: None,
            title: self.title,
            status,
            summary: self.summary,
            last_active_at: self.last_active_at,
            created_at: self.created_at,
            updated_at: self.updated_at,
        }
    }
}

/// A stored time: the instant its RFC 3339 text names, when it parses;
/// otherwise any instant (the time of reading is taken).
pub open spec fn stored_time(text: Seq<char>, t: UtcDateTime) -> bool {
    match rfc3339_instant(text) {
        Some((s, n)) => t.seconds() == s && t.subsec() == n,
        None => true,
    }
}

fn time_or_now(text: &str) -> (t: UtcDateTime)
    ensures
        stored_time(text@, t),
{
    match UtcDateTime::parse_rfc3339(text) {
        Some(t) => t,
        None => UtcDateTime::now(),
    }
}

/// A row of `goals`.
#[derive(Debug, Clone)]
pub struct GoalRow {
    pub id: String,
    pub thread_id: String,
    pub objective: String,
    pub status: String,
    pub token_budget: Option<i64>,
    pub tokens_used: i64,
    pub time_used_seconds: i64,
    pub turns_used: i64,
    pub max_turns: i64,
    pub pause_reason: Option<String>,
    pub pause_detail: Option<String>,
    pub evidence: Option<String>,
    pub last_evaluated_run_id: Option<String>,
    pub judge_passed: i64,
    pub judge_completeness: Option<i64>,
    pub judge_findings: Option<String>,
    pub judge_summary: Option<String>,
    pub judge_evaluated_run_id: Option<String>,
    pub created_at: String,
    pub updated_at: String,
}

impl GoalRow {
    /// The goal record; its times are parsed, and read as the current time
    /// when they do not parse.
    pub fn into_record(self) -> (r: GoalRecord)
        ensures
            r.id == self.id && r.thread_id == self.thread_id && r.objective == self.objective,
            r.status == GoalStatus::from_name(self.status@),
            r.token_budget == self.token_budget && r.tokens_used == self.tokens_used,
            r.time_used_seconds == self.time_used_seconds,
            r.turns_used == self.turns_used && r.max_turns == self.max_turns,
            r.pause_reason == match self.pause_reason {
                Some(s) => Some(PauseReason::from_name(s@)),
                None => None,
            },
            r.pause_detail == self.pause_detail && r.evidence == self.evidence,
            r.last_evaluated_run_id == self.last_evaluated_run_id,
            stored_time(self.created_at@, r.created_at),
            stored_time(self.updated_at@, r.updated_at),
    {
        let status = GoalStatus::from_str(self.status.as_str());
        let pause_reason = match &self.pause_reason {
            Some(s) => Some(PauseReason::from_str(s.as_str())),
            None => None,
        };
        let created_at = time_or_now(self.created_at.as_str());
        let updated_at = time_or_now(self.updated_at.as_str());
        GoalRecord {
            id: self.id,
            thread_id: self.thread_id,
            objective: self.objective,
            status,
            token_budget: self.token_budget,
            tokens_used: self.tokens_used,
            time_used_seconds: self.time_used_seconds,
            turns_used: self.turns_used,
            max_turns: self.max_turns,
            pause_reason,
            pause_detail: self.pause_detail,
            evidence: self.evidence,
            last_evaluated_run_id: self.last_evaluated_run_id,
            created_at,
            updated_at,
        }
    }
}

/// A row of `workspaces`.
#[derive(Debug, Clone)]
pub struct WorkspaceRow {
    pub id: String,
    pub name: String,
    pub path: String,
    pub canonical_path: String,
    pub display_path: String,
    pub is_default: i32,
    pub is_git: i32,
    pub auto_work_tree: i32,
    pub status: String,
    pub last_validated_at: Option<String>,
    pub created_at: String,
    pub updated_at: String,
    pub kind: String,
    pub parent_workspace_id: Option<String>,
    pub git_common_dir: Option<String>,
    pub branch: Option<String>,
    pub worktree_name: Option<String>,
}

impl WorkspaceRow {
    /// The workspace record; a validation time that does not parse is
    /// dropped, creation and update times read as the current time.
    pub fn into_record(self) -> (r: WorkspaceRecord)
        ensures
            r.id == self.id && r.name == self.name && r.path == self.path,
            r.canonical_path == self.canonical_path && r.display_path == self.display_path,
            r.is_default == (self.is_default != 0) && r.is_git == (self.is_git != 0),
            r.auto_work_tree == (self.auto_work_tree != 0),
            r.status == WorkspaceStatus::from_name(self.status@),
            match self.last_validated_at {
                Some(text) => match rfc3339_instant(text@) {
                    Some((s, n)) => r.last_validated_at matches Some(t) && t.seconds() == s
                        && t.subsec() == n,
                    None => r.last_validated_at is None,
                },
                None => r.last_validated_at is None,
            },
            stored_time(self.created_at@, r.created_at),
            stored_time(self.updated_at@, r.updated_at),
            r.kind == WorkspaceKind::from_name(self.kind@),
            r.parent_workspace_id == self.parent_workspace_id,
            r.git_common_dir == self.git_common_dir && r.branch == self.branch,
            r.worktree_name == self.worktree_name,
    {
        let status = WorkspaceStatus::from_str(self.status.as_str());
        let kind = WorkspaceKind::from_str(self.kind.as_str());
        let last_validated_at = match &self.last_validated_at {
            Some(s) => UtcDateTime::parse_rfc3339(s.as_str()),
            None => None,
        };
        let created_at = time_or_now(self.created_at.as_str());
        let updated_at = time_or_now(self.updated_at.as_str());
        WorkspaceRecord {
            id: self.id,
            name: self.name,
            path: self.path,
            canonical_path: self.canonical_path,
            display_path: self.display_path,
            is_default: self.is_default != 0,
            is_git: self.is_git != 0,
            auto_work_tree: self.auto_work_tree != 0,
            status,
            last_validated_at,
            created_at,
            updated_at,
            kind,
            parent_workspace_id: self.parent_workspace_id,
            git_common_dir: self.git_common_dir,
            branch: self.branch,
            worktree_name: self.worktree_name,
        }
    }
}

/// Values inserted into the audit log.
#[derive(Debug, Clone)]
pub struct AuditInsert {
    pub actor_type: String,
    pub actor_id: Option<String>,
    pub source: String,
    pub workspace_id: Option<String>,
    pub thread_id: Option<String>,
    pub run_id: Option<String>,
    pub tool_call_id: Option<String>,
    pub action: String,
    pub target_type: Option<String>,
    pub target_id: Option<String>,
    pub policy_check_json: Option<String>,
    pub result_json: Option<String>,
}

/// Values inserted as a new tool call.
#[derive(Debug, Clone)]
pub struct ToolCallInsert {
    pub id: String,
    pub tool_call_id: String,
    pub run_id: String,
    pub thread_id: String,
    pub helper_id: Option<String>,
    pub tool_name: String,
    pub tool_input_json: String,
    pub status: String,
}

} // verus!
